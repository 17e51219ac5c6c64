use lib::{DlmsData, ObisCode};
use lib::data::Data;

#[test]
fn test_data_new() {
    let d = Data::new(ObisCode::new(0, 0, 96, 1, 0, 255), DlmsData::NullData);
    assert_eq!(d.class_id(), 1);
}

#[test]
fn test_data_value() {
    let d = Data::new(ObisCode::new(0, 0, 96, 1, 0, 255), DlmsData::Boolean(true));
    assert_eq!(d.value().as_bool(), Some(true));
}

#[test]
fn test_data_set_value() {
    let mut d = Data::new(ObisCode::new(0, 0, 96, 1, 0, 255), DlmsData::NullData);
    d.set_value(DlmsData::Unsigned(42));
    assert_eq!(d.value().as_u8(), Some(42));
}

#[test]
fn test_data_attribute_to_bytes() {
    let d = Data::new(ObisCode::new(0, 0, 96, 1, 0, 255), DlmsData::Unsigned(42));
    let value = d.attribute_data(2).unwrap();
    assert_eq!(value, DlmsData::Unsigned(42));
}

#[test]
fn test_data_attribute_from_bytes() {
    let mut d = Data::new(ObisCode::new(0, 0, 96, 1, 0, 255), DlmsData::NullData);
    let encoded = DlmsData::Unsigned(99);
    d.apply_attribute(2, Some(encoded)).unwrap();
    assert_eq!(d.value().as_u8(), Some(99));
}

#[test]
fn test_data_unsupported_attr() {
    let d = Data::new(ObisCode::new(0, 0, 96, 1, 0, 255), DlmsData::NullData);
    assert!(d.attribute_data(99).is_none());
}
