use lib::c83_prime_mac_func_params::PrimeMacFuncParams;
use lib::ObisCode;

#[test]
fn C83_PRIMEMACFuncParams_test_new() {
    let obj = PrimeMacFuncParams::new(ObisCode::new(0,0,0,0,0,0));
    assert_eq!(obj.class_id(), 83);
}

#[test]
fn C83_PRIMEMACFuncParams_test_getter() {
    let obj = PrimeMacFuncParams::new(ObisCode::new(0,0,0,0,0,0));
    let _ = obj.mac_frame_counter();
}
