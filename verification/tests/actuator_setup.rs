use lib::actuator_setup::ActuatorSetup;
use lib::{DlmsData, ObisCode};

#[test]
fn test_actuator_setup_new() {
    let asetup = ActuatorSetup::new(ObisCode::new(0, 0, 1, 0, 0, 255));
    assert_eq!(asetup.class_id(), 76);
}

#[test]
fn test_actuator_setup_enabled() {
    let mut asetup = ActuatorSetup::new(ObisCode::new(0, 0, 1, 0, 0, 255));
    asetup.set_enabled(false);
    assert!(!asetup.enabled());
}

#[test]
fn test_actuator_setup_roundtrip() {
    let mut asetup = ActuatorSetup::new(ObisCode::new(0, 0, 1, 0, 0, 255));
    let bytes = DlmsData::Boolean(false);
    asetup.apply_attribute(2, Some(bytes)).unwrap();
    assert!(!asetup.enabled());
}

#[test]
fn test_actuator_setup_delay() {
    let mut asetup = ActuatorSetup::new(ObisCode::new(0, 0, 1, 0, 0, 255));
    asetup.set_auto_off_delay(3600);
    assert_eq!(asetup.auto_off_delay(), 3600);
}
