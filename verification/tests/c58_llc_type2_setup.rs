use lib::c58_llc_type2_setup::LlcType2Setup;
use lib::ObisCode;

#[test]
fn C58_LLCType2Setup_test_new() {
    let obj = LlcType2Setup::new(ObisCode::new(0,0,0,0,0,0));
    assert_eq!(obj.class_id(), 58);
}

#[test]
fn C58_LLCType2Setup_test_getter() {
    let obj = LlcType2Setup::new(ObisCode::new(0,0,0,0,0,0));
    let _ = obj.window_size();
}
