use lib::c71_limiter::{Limiter, ThresholdAction};
use lib::{DlmsData, ObisCode};

fn default_limiter() -> Limiter {
    let mut l = Limiter::new(ObisCode::new(0, 0, 1, 0, 0, 255));
    l.set_thresholds(
        DlmsData::DoubleLong(100),
        DlmsData::DoubleLong(120),
        DlmsData::DoubleLong(20),
    );
    l.set_durations(10, 10);
    l
}

#[test]
fn C71_Limiter_test_limiter_new() {
    let l = Limiter::new(ObisCode::new(0, 0, 1, 0, 0, 255));
    assert_eq!(l.class_id(), 71);
}

#[test]
fn C71_Limiter_test_limiter_monitored_value() {
    let mut l = Limiter::new(ObisCode::new(0, 0, 1, 0, 0, 255));
    l.set_monitored_value(DlmsData::DoubleLong(50));
    assert_eq!(l.monitored_value().as_i32(), Some(50));
}

#[test]
fn C71_Limiter_test_limiter_roundtrip() {
    let mut l = Limiter::new(ObisCode::new(0, 0, 1, 0, 0, 255));
    let bytes = DlmsData::DoubleLong(999);
    l.apply_attribute(2, Some(bytes)).unwrap();
    assert_eq!(l.monitored_value().as_i32(), Some(999));
}

#[test]
fn C71_Limiter_test_limiter_emergency() {
    let mut l = Limiter::new(ObisCode::new(0, 0, 1, 0, 0, 255));
    l.set_emergency_active(true);
    assert!(l.emergency_active());
}

#[test]
fn test_check_threshold_below() {
    let l = default_limiter();
    assert!(!l.check_threshold()); // value=0, normal=100
}

#[test]
fn test_check_threshold_above() {
    let mut l = default_limiter();
    l.set_monitored_value(DlmsData::DoubleLong(150));
    assert!(l.check_threshold());
}

#[test]
fn test_activate_emergency_changes_state() {
    let mut l = default_limiter();
    assert!(l.activate_emergency());
    assert!(!l.activate_emergency()); // already active
}

#[test]
fn test_deactivate_emergency_changes_state() {
    let mut l = default_limiter();
    l.activate_emergency();
    assert!(l.deactivate_emergency());
    assert!(!l.deactivate_emergency()); // already inactive
}

#[test]
fn test_evaluate_thresholds_over_duration_met() {
    let mut l = default_limiter();
    l.set_monitored_value(DlmsData::DoubleLong(150)); // over threshold_over=120
    // First call: start timer
    assert_eq!(l.evaluate_thresholds(0), ThresholdAction::Normal);
    // Second call after duration met
    assert_eq!(l.evaluate_thresholds(15), ThresholdAction::OverThreshold);
    assert!(l.emergency_active());
}

#[test]
fn test_evaluate_thresholds_under_duration_met() {
    let mut l = default_limiter();
    l.set_monitored_value(DlmsData::DoubleLong(10)); // under threshold_under=20
    assert_eq!(l.evaluate_thresholds(0), ThresholdAction::Normal);
    assert_eq!(l.evaluate_thresholds(15), ThresholdAction::UnderThreshold);
    assert!(l.emergency_active());
}

#[test]
fn test_evaluate_thresholds_back_to_normal() {
    let mut l = default_limiter();
    l.set_monitored_value(DlmsData::DoubleLong(150));
    l.evaluate_thresholds(0);
    l.evaluate_thresholds(15); // triggers emergency
    l.set_monitored_value(DlmsData::DoubleLong(80)); // back to normal
    assert_eq!(l.evaluate_thresholds(20), ThresholdAction::Normal);
    assert!(!l.emergency_active());
}

#[test]
fn test_should_disconnect() {
    let mut l = default_limiter();
    assert!(!l.should_disconnect());
    l.activate_emergency();
    assert!(l.should_disconnect());
}

#[test]
fn test_should_reconnect() {
    let mut l = default_limiter();
    assert!(l.should_reconnect()); // not emergency, value=0 < 100
    l.activate_emergency();
    assert!(!l.should_reconnect());
}
