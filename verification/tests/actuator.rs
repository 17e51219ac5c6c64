use lib::actuator::{Actuator, ActuatorState};
use lib::{DlmsData, ObisCode};

#[test]
fn test_actuator_new() {
    let a = Actuator::new(ObisCode::new(0, 0, 1, 0, 0, 255));
    assert_eq!(a.class_id(), 75);
    assert_eq!(*a.state(), ActuatorState::Off);
}

#[test]
fn test_actuator_set_state() {
    let mut a = Actuator::new(ObisCode::new(0, 0, 1, 0, 0, 255));
    a.set_state(ActuatorState::On);
    assert_eq!(*a.state(), ActuatorState::On);
}

#[test]
fn test_actuator_roundtrip() {
    let mut a = Actuator::new(ObisCode::new(0, 0, 1, 0, 0, 255));
    let bytes = DlmsData::Unsigned(1);
    a.apply_attribute(2, Some(bytes)).unwrap();
    assert_eq!(*a.state(), ActuatorState::On);
}

#[test]
fn test_actuator_execute_action() {
    let mut a = Actuator::new(ObisCode::new(0, 0, 1, 0, 0, 255));
    let data = DlmsData::Unsigned(1);
    a.execute_action(1, Some(data)).unwrap();
    assert_eq!(*a.state(), ActuatorState::On);
}

#[test]
fn test_actuator_invalid_method() {
    let mut a = Actuator::new(ObisCode::new(0, 0, 1, 0, 0, 255));
    assert!(a.execute_action(99, None).is_err());
}
