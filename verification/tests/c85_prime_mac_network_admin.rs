use lib::c85_prime_mac_network_admin::PrimeMacNetworkAdmin;
use lib::ObisCode;

#[test]
fn C85_PRIMEMACNetworkAdmin_test_new() {
    let obj = PrimeMacNetworkAdmin::new(ObisCode::new(0,0,0,0,0,0));
    assert_eq!(obj.class_id(), 85);
}

#[test]
fn C85_PRIMEMACNetworkAdmin_test_getter() {
    let obj = PrimeMacNetworkAdmin::new(ObisCode::new(0,0,0,0,0,0));
    let _ = obj.network_state();
}
