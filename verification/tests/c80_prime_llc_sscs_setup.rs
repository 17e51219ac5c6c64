use lib::c80_prime_llc_sscs_setup::PrimeLlcSscsSetup;
use lib::ObisCode;

#[test]
fn C80_PRIMELLCSSCSSetup_test_new() {
    let obj = PrimeLlcSscsSetup::new(ObisCode::new(0,0,0,0,0,0));
    assert_eq!(obj.class_id(), 80);
}

#[test]
fn C80_PRIMELLCSSCSSetup_test_getter() {
    let obj = PrimeLlcSscsSetup::new(ObisCode::new(0,0,0,0,0,0));
    let _ = obj.sscs_enable();
}
