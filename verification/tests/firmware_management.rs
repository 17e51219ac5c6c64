use lib::ObisCode;
use lib::firmware_management::FirmwareManagement;

#[test]
fn test_firmware_management_class_id() {
    let fm = FirmwareManagement::new(ObisCode::new(0, 0, 205, 0, 0, 255));
    assert_eq!(fm.class_id(), 205);
}

#[test]
fn test_firmware_management_new() {
    let fm = FirmwareManagement::new(ObisCode::new(0, 0, 205, 0, 0, 255));
    assert_eq!(fm.component_count(), 0);
    assert!(!fm.is_update_pending());
}

#[test]
fn test_firmware_management_add_component() {
    let mut fm = FirmwareManagement::new(ObisCode::new(0, 0, 205, 0, 0, 255));
    fm.add_component(1, "1.0.0".to_string());
    assert_eq!(fm.component_count(), 1);
}

#[test]
fn test_firmware_management_get_component() {
    let mut fm = FirmwareManagement::new(ObisCode::new(0, 0, 205, 0, 0, 255));
    fm.add_component(1, "1.0.0".to_string());
    let comp = fm.get_component(1);
    assert!(comp.is_some());
    assert_eq!(comp.unwrap().version, "1.0.0");
}

#[test]
fn test_firmware_management_update_version() {
    let mut fm = FirmwareManagement::new(ObisCode::new(0, 0, 205, 0, 0, 255));
    fm.add_component(1, "1.0.0".to_string());
    let result = fm.update_version(1, "2.0.0".to_string());
    assert!(result);
    assert_eq!(fm.get_component(1).unwrap().version, "2.0.0");
}

#[test]
fn test_firmware_management_update_pending() {
    let mut fm = FirmwareManagement::new(ObisCode::new(0, 0, 205, 0, 0, 255));
    fm.set_update_pending(true);
    assert!(fm.is_update_pending());
    fm.set_update_pending(false);
    assert!(!fm.is_update_pending());
}

#[test]
fn test_firmware_management_current_operation() {
    let mut fm = FirmwareManagement::new(ObisCode::new(0, 0, 205, 0, 0, 255));
    fm.set_current_operation(1);
    assert_eq!(fm.current_operation(), 1);
}

#[test]
fn test_firmware_management_multiple_components() {
    let mut fm = FirmwareManagement::new(ObisCode::new(0, 0, 205, 0, 0, 255));
    fm.add_component(1, "1.0.0".to_string());
    fm.add_component(2, "1.0.0".to_string());
    fm.add_component(3, "1.0.0".to_string());
    assert_eq!(fm.component_count(), 3);
}

#[test]
fn test_firmware_management_attribute_count() {
    let fm = FirmwareManagement::new(ObisCode::new(0, 0, 205, 0, 0, 255));
    assert_eq!(fm.attribute_count(), 6);
}

#[test]
fn test_firmware_management_method_count() {
    let fm = FirmwareManagement::new(ObisCode::new(0, 0, 205, 0, 0, 255));
    assert_eq!(fm.method_count(), 3);
}
