use lib::infrared_setup::InfraredSetup;

#[test]
fn test_infrared_class_id() {
    assert_eq!(InfraredSetup::new().class_id(), 102);
}
