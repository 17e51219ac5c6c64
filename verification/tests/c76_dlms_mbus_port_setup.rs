use lib::c76_dlms_mbus_port_setup::DlmsMBusPortSetup;
use lib::ObisCode;

#[test]
fn C76_DLMSMBusPortSetup_test_new() {
    let obj = DlmsMBusPortSetup::new(ObisCode::new(0, 0, 1, 0, 0, 255));
    assert_eq!(obj.class_id(), 76);
}

#[test]
fn C76_DLMSMBusPortSetup_test_getter() {
    let obj = DlmsMBusPortSetup::new(ObisCode::new(0, 0, 1, 0, 0, 255));
    let _ = obj.slave_devices();
}
