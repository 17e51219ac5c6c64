use lib::{DlmsData, ObisCode};
use lib::data_logger::DataLogger;

#[test]
fn test_data_logger_class_id() {
    let dl = DataLogger::new(ObisCode::new(0, 0, 207, 0, 0, 255));
    assert_eq!(dl.class_id(), 207);
}

#[test]
fn test_data_logger_new() {
    let dl = DataLogger::new(ObisCode::new(0, 0, 207, 0, 0, 255));
    assert_eq!(dl.entry_count(), 0);
    assert_eq!(dl.capture_interval(), 60);
}

#[test]
fn test_data_logger_log() {
    let mut dl = DataLogger::new(ObisCode::new(0, 0, 207, 0, 0, 255));
    let result = dl.log(DlmsData::DoubleLong(100));
    assert!(result);
    assert_eq!(dl.entry_count(), 1);
}

#[test]
fn test_data_logger_get_entry() {
    let mut dl = DataLogger::new(ObisCode::new(0, 0, 207, 0, 0, 255));
    dl.log(DlmsData::DoubleLong(100));
    let entry = dl.get_entry(0);
    assert!(entry.is_some());
    assert_eq!(entry.unwrap().value.as_i32(), Some(100));
}

#[test]
fn test_data_logger_clear() {
    let mut dl = DataLogger::new(ObisCode::new(0, 0, 207, 0, 0, 255));
    dl.log(DlmsData::DoubleLong(100));
    dl.clear();
    assert_eq!(dl.entry_count(), 0);
}

#[test]
fn test_data_logger_capture_interval() {
    let mut dl = DataLogger::new(ObisCode::new(0, 0, 207, 0, 0, 255));
    dl.set_capture_interval(300);
    assert_eq!(dl.capture_interval(), 300);
}

#[test]
fn test_data_logger_get_latest() {
    let mut dl = DataLogger::new(ObisCode::new(0, 0, 207, 0, 0, 255));
    dl.log(DlmsData::DoubleLong(100));
    dl.log(DlmsData::DoubleLong(200));
    let latest = dl.get_latest();
    assert!(latest.is_some());
    assert_eq!(latest.unwrap().value.as_i32(), Some(200));
}

#[test]
fn test_data_logger_with_capacity() {
    let dl = DataLogger::with_capacity(ObisCode::new(0, 0, 207, 0, 0, 255), 500);
    assert_eq!(dl.entry_count(), 0);
}

#[test]
fn test_data_logger_attribute_count() {
    let dl = DataLogger::new(ObisCode::new(0, 0, 207, 0, 0, 255));
    assert_eq!(dl.attribute_count(), 6);
}

#[test]
fn test_data_logger_method_count() {
    let dl = DataLogger::new(ObisCode::new(0, 0, 207, 0, 0, 255));
    assert_eq!(dl.method_count(), 2);
}

#[test]
fn test_data_logger_max_entries() {
    let mut dl = DataLogger::with_capacity(ObisCode::new(0, 0, 207, 0, 0, 255), 5);
    for i in 0..10 {
        dl.log(DlmsData::DoubleLong(i));
    }
    assert_eq!(dl.entry_count(), 5); // max_entries
}
