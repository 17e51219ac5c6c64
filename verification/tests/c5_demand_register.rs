use lib::cosem::logical_name_bytes;
use lib::c5_demand_register::DemandRegister;
use lib::{DlmsData, ObisCode};

#[test]
fn test_demand_register_class_id() {
    let r = DemandRegister::new(ObisCode::new(1, 0, 21, 7, 0, 255), DlmsData::DoubleLong(0));
    assert_eq!(r.class_id(), 5);
}

#[test]
fn test_demand_register_roundtrip() {
    let mut r = DemandRegister::new(ObisCode::new(1, 0, 21, 7, 0, 255), DlmsData::DoubleLong(0));
    let bytes = DlmsData::DoubleLong(555);
    r.apply_attribute(2, Some(bytes)).unwrap();
    assert_eq!(r.value().as_i32(), Some(555));
}

#[test]
fn test_demand_register_attribute_count() {
    let r = DemandRegister::new(ObisCode::new(1, 0, 21, 7, 0, 255), DlmsData::DoubleLong(0));
    assert_eq!(r.attribute_count(), 7);
}

#[test]
fn test_demand_register_attr1_logical_name() {
    let r = DemandRegister::new(ObisCode::new(1, 0, 21, 7, 0, 255), DlmsData::DoubleLong(0));
    let bytes = logical_name_bytes(&r.logical_name());
    assert_eq!(bytes.len(), 8);
}

#[test]
fn test_demand_register_attr2_value() {
    let r = DemandRegister::new(ObisCode::new(1, 0, 21, 7, 0, 255), DlmsData::DoubleLong(12345));
    let value = r.attribute_data(2).unwrap();
    assert_eq!(value, DlmsData::DoubleLong(12345));
}

#[test]
fn test_demand_register_attr3_unit_scaler() {
    let r = DemandRegister::new(ObisCode::new(1, 0, 21, 7, 0, 255), DlmsData::DoubleLong(0));
    let value = r.attribute_data(3).unwrap();
    assert_eq!(value, DlmsData::Structure(vec![DlmsData::Enum(0), DlmsData::Enum(0)]));
}

#[test]
fn test_demand_register_set_value() {
    let mut r = DemandRegister::new(ObisCode::new(1, 0, 21, 7, 0, 255), DlmsData::DoubleLong(0));
    r.set_value(DlmsData::DoubleLong(9999));
    assert_eq!(r.value().as_i32(), Some(9999));
}
