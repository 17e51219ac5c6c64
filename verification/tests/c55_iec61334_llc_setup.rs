use lib::c55_iec61334_llc_setup::Iec61334LlcSetup;
use lib::ObisCode;

#[test]
fn C55_IEC61334LLCSetup_test_new() {
    let obj = Iec61334LlcSetup::new(ObisCode::new(0,0,0,0,0,0));
    assert_eq!(obj.class_id(), 55);
}

#[test]
fn C55_IEC61334LLCSetup_test_getter() {
    let obj = Iec61334LlcSetup::new(ObisCode::new(0,0,0,0,0,0));
    let _ = obj.llc_type_2_enable();
}
