use lib::{DlmsData, ObisCode};
use lib::gas_valve::{GasValve, GasValveState};

#[test]
fn test_gas_valve_new() {
    let gv = GasValve::new(ObisCode::new(0, 0, 1, 0, 0, 255));
    assert_eq!(gv.class_id(), 81);
    assert!(!gv.is_open());
}

#[test]
fn test_gas_valve_open() {
    let mut gv = GasValve::new(ObisCode::new(0, 0, 1, 0, 0, 255));
    gv.set_state(GasValveState::Open);
    assert!(gv.is_open());
}

#[test]
fn test_gas_valve_execute() {
    let mut gv = GasValve::new(ObisCode::new(0, 0, 1, 0, 0, 255));
    let data = DlmsData::Unsigned(1);
    gv.execute_action(1, Some(data)).unwrap();
    assert!(gv.is_open());
}
