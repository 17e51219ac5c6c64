use lib::clock::Clock;
use lib::{DlmsData, CosemDateTime, ObisCode};

#[test]
fn test_clock_class_id() {
    let c = Clock::new(ObisCode::new(0, 0, 1, 0, 0, 255));
    assert_eq!(c.class_id(), 8);
}

#[test]
fn test_clock_attr_count() {
    let c = Clock::new(ObisCode::new(0, 0, 1, 0, 0, 255));
    assert_eq!(c.attribute_count(), 10);
}

#[test]
fn test_clock_method_count() {
    let c = Clock::new(ObisCode::new(0, 0, 1, 0, 0, 255));
    assert_eq!(c.method_count(), 3);
}

#[test]
fn test_clock_timezone() {
    let c = Clock::new(ObisCode::new(0, 0, 1, 0, 0, 255));
    assert_eq!(c.timezone(), 480); // UTC+8 default
}

#[test]
fn test_clock_set_datetime() {
    let mut c = Clock::new(ObisCode::new(0, 0, 1, 0, 0, 255));
    let dt = CosemDateTime::with_date(2024, 6, 15);
    c.set_datetime(dt);
    assert!(c.datetime().is_date_specified());
}

#[test]
fn test_clock_attr2_roundtrip() {
    let mut c = Clock::new(ObisCode::new(0, 0, 1, 0, 0, 255));
    let dt = CosemDateTime::with_date(2024, 1, 1);
    c.set_datetime(dt);
    let value = c.attribute_data(2).unwrap();
    let mut c2 = Clock::new(ObisCode::new(0, 0, 1, 0, 0, 255));
    c2.apply_attribute(2, Some(value)).unwrap();
    // Note: unspecified fields (None) encode as 0x00, which decodes as Some(0)
    // This is a known limitation of the simple encoding
    assert_eq!(c.datetime().year, c2.datetime().year);
    assert_eq!(c.datetime().month, c2.datetime().month);
    assert_eq!(c.datetime().day, c2.datetime().day);
}

#[test]
fn test_clock_attr3_timezone() {
    let c = Clock::new(ObisCode::new(0, 0, 1, 0, 0, 255));
    let value = c.attribute_data(3).unwrap();
    assert_eq!(value, DlmsData::Long(480));
}
