use lib::ObisCode;
use lib::event_logger::EventLogger;

#[test]
fn test_event_logger_class_id() {
    let el = EventLogger::new(ObisCode::new(0, 0, 202, 0, 0, 255));
    assert_eq!(el.class_id(), 202);
}

#[test]
fn test_event_logger_new() {
    let el = EventLogger::new(ObisCode::new(0, 0, 202, 0, 0, 255));
    assert_eq!(el.entry_count(), 0);
    assert!(el.is_enabled());
}

#[test]
fn test_event_logger_log() {
    let mut el = EventLogger::new(ObisCode::new(0, 0, 202, 0, 0, 255));
    let index = el.log_event(100, vec![1, 2, 3]);
    assert_eq!(el.entry_count(), 1);
    assert_eq!(index, 0);
}

#[test]
fn test_event_logger_get_entry() {
    let mut el = EventLogger::new(ObisCode::new(0, 0, 202, 0, 0, 255));
    el.log_event(100, vec![1, 2, 3]);
    let entry = el.get_entry(0);
    assert!(entry.is_some());
    assert_eq!(entry.unwrap().event_code, 100);
}

#[test]
fn test_event_logger_clear() {
    let mut el = EventLogger::new(ObisCode::new(0, 0, 202, 0, 0, 255));
    el.log_event(100, vec![1, 2, 3]);
    el.clear();
    assert_eq!(el.entry_count(), 0);
}

#[test]
fn test_event_logger_enabled() {
    let mut el = EventLogger::new(ObisCode::new(0, 0, 202, 0, 0, 255));
    assert!(el.is_enabled());
    el.set_enabled(false);
    assert!(!el.is_enabled());
}

#[test]
fn test_event_logger_multiple_events() {
    let mut el = EventLogger::new(ObisCode::new(0, 0, 202, 0, 0, 255));
    el.log_event(100, vec![1, 2, 3]);
    el.log_event(200, vec![4, 5, 6]);
    el.log_event(300, vec![7, 8, 9]);
    assert_eq!(el.entry_count(), 3);
}

#[test]
fn test_event_logger_max_entries() {
    let mut el = EventLogger::new(ObisCode::new(0, 0, 202, 0, 0, 255));
    for i in 0..150 {
        el.log_event(i, vec![i as u8]);
    }
    assert_eq!(el.entry_count(), 100); // max_entries
}
