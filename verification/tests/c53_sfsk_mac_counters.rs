use lib::c53_sfsk_mac_counters::SfskMacCounters;
use lib::ObisCode;

#[test]
fn C53_SFSKMACCounters_test_new() {
    let obj = SfskMacCounters::new(ObisCode::new(0,0,0,0,0,0));
    assert_eq!(obj.class_id(), 53);
}

#[test]
fn C53_SFSKMACCounters_test_getter() {
    let obj = SfskMacCounters::new(ObisCode::new(0,0,0,0,0,0));
    let _ = obj.crc_error_count();
}
