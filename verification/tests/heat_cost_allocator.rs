use lib::{DlmsData, ObisCode};
use lib::heat_cost_allocator::HeatCostAllocator;

#[test]
fn test_heat_cost_allocator_new() {
    let hca = HeatCostAllocator::new(ObisCode::new(0, 0, 1, 0, 0, 255), DlmsData::DoubleLong(100));
    assert_eq!(hca.class_id(), 208);
}

#[test]
fn test_heat_cost_allocator_value() {
    let hca = HeatCostAllocator::new(ObisCode::new(0, 0, 1, 0, 0, 255), DlmsData::DoubleLong(42));
    assert_eq!(hca.value().as_i32(), Some(42));
}

#[test]
fn test_heat_cost_allocator_roundtrip() {
    let mut hca = HeatCostAllocator::new(ObisCode::new(0, 0, 1, 0, 0, 255), DlmsData::DoubleLong(0));
    let bytes = DlmsData::DoubleLong(777);
    hca.apply_attribute(2, Some(bytes)).unwrap();
    assert_eq!(hca.value().as_i32(), Some(777));
}

#[test]
fn test_heat_cost_allocator_period() {
    let mut hca = HeatCostAllocator::new(ObisCode::new(0, 0, 1, 0, 0, 255), DlmsData::DoubleLong(0));
    hca.set_integration_period(300);
    assert_eq!(hca.integration_period(), 300);
}
