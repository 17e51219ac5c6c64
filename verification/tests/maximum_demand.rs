use lib::{DlmsData, ObisCode};
use lib::maximum_demand::MaximumDemand;

#[test]
fn test_max_demand_class_id() {
    let m = MaximumDemand::new(ObisCode::new(1, 0, 21, 7, 0, 255), DlmsData::DoubleLong(0));
    assert_eq!(m.class_id(), 34);
}

#[test]
fn test_max_demand_roundtrip() {
    let mut m = MaximumDemand::new(ObisCode::new(1, 0, 21, 7, 0, 255), DlmsData::DoubleLong(0));
    let bytes = DlmsData::DoubleLong(9999);
    m.apply_attribute(2, Some(bytes)).unwrap();
    assert_eq!(m.value().as_i32(), Some(9999));
}

#[test]
fn test_max_demand_attr_count() {
    let m = MaximumDemand::new(ObisCode::new(1, 0, 21, 7, 0, 255), DlmsData::DoubleLong(0));
    assert_eq!(m.attribute_count(), 8);
}
