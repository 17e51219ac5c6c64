use lib::ObisCode;
use lib::direct_disconnect::DirectDisconnect;

#[test]
fn test_direct_disconnect_class_id() {
    let obj = DirectDisconnect::new(ObisCode::new(0, 0, 96, 0, 0, 255));
    assert_eq!(obj.class_id(), 63);
}
