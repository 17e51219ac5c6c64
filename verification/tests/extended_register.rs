use lib::{DlmsData, ObisCode};
use lib::extended_register::ExtendedRegister;

#[test]
fn test_extended_register_class_id() {
    let r = ExtendedRegister::new(ObisCode::new(1, 0, 1, 8, 0, 255), DlmsData::DoubleLong(0));
    assert_eq!(r.class_id(), 4);
}

#[test]
fn test_extended_register_attr_count() {
    let r = ExtendedRegister::new(ObisCode::new(1, 0, 1, 8, 0, 255), DlmsData::DoubleLong(0));
    assert_eq!(r.attribute_count(), 5);
}

#[test]
fn test_extended_register_roundtrip() {
    let mut r = ExtendedRegister::new(ObisCode::new(1, 0, 1, 8, 0, 255), DlmsData::DoubleLong(0));
    let bytes = DlmsData::DoubleLong(999);
    r.apply_attribute(2, Some(bytes)).unwrap();
    assert_eq!(r.value().as_i32(), Some(999));
}
