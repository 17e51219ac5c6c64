use lib::alarm_handler::AlarmHandler;
use lib::{DlmsData, ObisCode};

#[test]
fn test_alarm_handler_class_id() {
    let ah = AlarmHandler::new(ObisCode::new(0, 0, 203, 0, 0, 255));
    assert_eq!(ah.class_id(), 203);
}

#[test]
fn test_alarm_handler_new() {
    let ah = AlarmHandler::new(ObisCode::new(0, 0, 203, 0, 0, 255));
    assert_eq!(ah.alarm_count(), 0);
    assert_eq!(ah.active_alarms().len(), 0);
}

#[test]
fn test_alarm_handler_add() {
    let mut ah = AlarmHandler::new(ObisCode::new(0, 0, 203, 0, 0, 255));
    ah.add_alarm(100, DlmsData::DoubleLong(1000));
    assert_eq!(ah.alarm_count(), 1);
}

#[test]
fn test_alarm_handler_enable_disable() {
    let mut ah = AlarmHandler::new(ObisCode::new(0, 0, 203, 0, 0, 255));
    ah.add_alarm(100, DlmsData::DoubleLong(1000));
    assert!(ah.disable_alarm(100));
    assert!(ah.enable_alarm(100));
}

#[test]
fn test_alarm_handler_active_alarms() {
    let mut ah = AlarmHandler::new(ObisCode::new(0, 0, 203, 0, 0, 255));
    ah.add_alarm(100, DlmsData::DoubleLong(1000));
    ah.check_alarm(100, &DlmsData::DoubleLong(1500));
    assert!(!ah.active_alarms().is_empty());
}

#[test]
fn test_alarm_handler_clear_active() {
    let mut ah = AlarmHandler::new(ObisCode::new(0, 0, 203, 0, 0, 255));
    ah.add_alarm(100, DlmsData::DoubleLong(1000));
    ah.check_alarm(100, &DlmsData::DoubleLong(1500));
    ah.clear_active_alarm(100);
    assert_eq!(ah.active_alarms().len(), 0);
}

#[test]
fn test_alarm_handler_multiple_alarms() {
    let mut ah = AlarmHandler::new(ObisCode::new(0, 0, 203, 0, 0, 255));
    ah.add_alarm(100, DlmsData::DoubleLong(1000));
    ah.add_alarm(200, DlmsData::DoubleLong(2000));
    ah.add_alarm(300, DlmsData::DoubleLong(3000));
    assert_eq!(ah.alarm_count(), 3);
}

#[test]
fn test_alarm_handler_attribute_count() {
    let ah = AlarmHandler::new(ObisCode::new(0, 0, 203, 0, 0, 255));
    assert_eq!(ah.attribute_count(), 6);
}

#[test]
fn test_alarm_handler_method_count() {
    let ah = AlarmHandler::new(ObisCode::new(0, 0, 203, 0, 0, 255));
    assert_eq!(ah.method_count(), 3);
}
