use lib::c81_prime_physical_counters::PrimePhysicalCounters;
use lib::ObisCode;

#[test]
fn C81_PRIMEPhysicalCounters_test_new() {
    let obj = PrimePhysicalCounters::new(ObisCode::new(0,0,0,0,0,0));
    assert_eq!(obj.class_id(), 81);
}

#[test]
fn C81_PRIMEPhysicalCounters_test_getter() {
    let obj = PrimePhysicalCounters::new(ObisCode::new(0,0,0,0,0,0));
    let _ = obj.phy_rx_crc_error();
}
