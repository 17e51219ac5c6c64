use lib::{DlmsData, ObisCode};
use lib::demand::Demand;

#[test]
fn test_demand_class_id() {
    let d = Demand::new(ObisCode::new(1, 0, 21, 7, 0, 255), DlmsData::DoubleLong(100));
    assert_eq!(d.class_id(), 10);
}

#[test]
fn test_demand_attr_count() {
    let d = Demand::new(ObisCode::new(1, 0, 21, 7, 0, 255), DlmsData::DoubleLong(0));
    assert_eq!(d.attribute_count(), 7);
}

#[test]
fn test_demand_roundtrip() {
    let mut d = Demand::new(ObisCode::new(1, 0, 21, 7, 0, 255), DlmsData::DoubleLong(0));
    let bytes = DlmsData::DoubleLong(777);
    d.apply_attribute(2, Some(bytes)).unwrap();
    assert_eq!(d.value().as_i32(), Some(777));
}

#[test]
fn test_demand_period() {
    let d = Demand::new(ObisCode::new(1, 0, 21, 7, 0, 255), DlmsData::DoubleLong(0));
    assert_eq!(d.period(), 60);
}

#[test]
fn test_demand_attr6_encode() {
    let d = Demand::new(ObisCode::new(1, 0, 21, 7, 0, 255), DlmsData::DoubleLong(0));
    let value = d.attribute_data(6).unwrap();
    assert_eq!(value, DlmsData::DoubleLongUnsigned(60));
}
