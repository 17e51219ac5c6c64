use lib::c84_prime_mac_counters::PrimeMacCounters;
use lib::ObisCode;

#[test]
fn C84_PRIMEMACCounters_test_new() {
    let obj = PrimeMacCounters::new(ObisCode::new(0,0,0,0,0,0));
    assert_eq!(obj.class_id(), 84);
}

#[test]
fn C84_PRIMEMACCounters_test_getter() {
    let obj = PrimeMacCounters::new(ObisCode::new(0,0,0,0,0,0));
    let _ = obj.mac_tx_error();
}
