use lib::c92_g3_6lowpan_setup::G36LoWPANSetup;
use lib::ObisCode;

#[test]
fn C92_G36LoWPANSetup_test_new() {
    let obj = G36LoWPANSetup::new(ObisCode::new(0,0,0,0,0,0));
    assert_eq!(obj.class_id(), 92);
}

#[test]
fn C92_G36LoWPANSetup_test_getter() {
    let obj = G36LoWPANSetup::new(ObisCode::new(0,0,0,0,0,0));
    let _ = obj.lowpan_mtu();
}
