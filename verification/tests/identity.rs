use lib::ObisCode;
use lib::identity::Identity;

#[test]
fn test_identity_new() {
    let identity = Identity::new(ObisCode::new(0, 0, 96, 1, 0, 255));
    assert_eq!(identity.class_id(), 40);
}

#[test]
fn test_identity_manufacturer() {
    let mut identity = Identity::new(ObisCode::new(0, 0, 96, 1, 0, 255));
    identity.set_manufacturer("ABC Corp".to_string());
    assert_eq!(identity.manufacturer(), "ABC Corp");
}

#[test]
fn test_identity_serial_number() {
    let mut identity = Identity::new(ObisCode::new(0, 0, 96, 1, 0, 255));
    identity.set_serial_number("SN12345678".to_string());
    assert_eq!(identity.serial_number(), "SN12345678");
}

#[test]
fn test_identity_firmware_version() {
    let mut identity = Identity::new(ObisCode::new(0, 0, 96, 1, 0, 255));
    identity.set_firmware_version("v1.2.3".to_string());
    assert_eq!(identity.firmware_version(), "v1.2.3");
}

#[test]
fn test_identity_attribute_count() {
    let identity = Identity::new(ObisCode::new(0, 0, 96, 1, 0, 255));
    assert_eq!(identity.attribute_count(), 7);
}

#[test]
fn test_identity_method_count() {
    let identity = Identity::new(ObisCode::new(0, 0, 96, 1, 0, 255));
    assert_eq!(identity.method_count(), 0);
}

#[test]
fn test_identity_attribute_to_bytes() {
    let identity = Identity::new(ObisCode::new(0, 0, 96, 1, 0, 255));
    let bytes = identity.attribute_to_bytes(1).unwrap();
    assert!(!bytes.is_empty());
}
