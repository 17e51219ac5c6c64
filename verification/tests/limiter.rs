use lib::{DlmsData, ObisCode};
use lib::limiter::Limiter;

#[test]
fn limiter_test_limiter_new() {
    let l = Limiter::new(ObisCode::new(0, 0, 1, 0, 0, 255));
    assert_eq!(l.class_id(), 71);
}

#[test]
fn limiter_test_limiter_monitored_value() {
    let mut l = Limiter::new(ObisCode::new(0, 0, 1, 0, 0, 255));
    l.set_monitored_value(DlmsData::DoubleLong(50));
    assert_eq!(l.monitored_value().as_i32(), Some(50));
}

#[test]
fn limiter_test_limiter_roundtrip() {
    let mut l = Limiter::new(ObisCode::new(0, 0, 1, 0, 0, 255));
    let bytes = DlmsData::DoubleLong(999);
    l.apply_attribute(2, Some(bytes)).unwrap();
    assert_eq!(l.monitored_value().as_i32(), Some(999));
}

#[test]
fn limiter_test_limiter_emergency() {
    let mut l = Limiter::new(ObisCode::new(0, 0, 1, 0, 0, 255));
    l.set_emergency_active(true);
    assert!(l.emergency_active());
}
