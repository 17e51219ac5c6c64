use lib::calendar::Calendar;
use lib::ObisCode;

#[test]
fn test_calendar_class_id() {
    let cal = Calendar::new(ObisCode::new(0, 0, 204, 0, 0, 255));
    assert_eq!(cal.class_id(), 204);
}

#[test]
fn test_calendar_new() {
    let cal = Calendar::new(ObisCode::new(0, 0, 204, 0, 0, 255));
    assert_eq!(cal.season_count(), 0);
    assert_eq!(cal.week_profile_count(), 0);
}

#[test]
fn test_calendar_add_season() {
    let mut cal = Calendar::new(ObisCode::new(0, 0, 204, 0, 0, 255));
    cal.add_season("Summer".to_string(), [1, 6, 24, 0, 0], [31, 8, 24, 0, 0]);
    assert_eq!(cal.season_count(), 1);
}

#[test]
fn test_calendar_add_week_profile() {
    let mut cal = Calendar::new(ObisCode::new(0, 0, 204, 0, 0, 255));
    cal.add_week_profile(1, 10); // Monday
    assert_eq!(cal.week_profile_count(), 1);
}

#[test]
fn test_calendar_add_special_day() {
    let mut cal = Calendar::new(ObisCode::new(0, 0, 204, 0, 0, 255));
    cal.add_special_day(1, 1); // Jan 1
    assert_eq!(cal.special_day_count(), 1);
}

#[test]
fn test_calendar_get_week_profile() {
    let mut cal = Calendar::new(ObisCode::new(0, 0, 204, 0, 0, 255));
    cal.add_week_profile(1, 10);
    let profile = cal.get_week_profile(1);
    assert!(profile.is_some());
    assert_eq!(profile.unwrap().day_schedule_id, 10);
}

#[test]
fn test_calendar_attribute_count() {
    let cal = Calendar::new(ObisCode::new(0, 0, 204, 0, 0, 255));
    assert_eq!(cal.attribute_count(), 5);
}

#[test]
fn test_calendar_method_count() {
    let cal = Calendar::new(ObisCode::new(0, 0, 204, 0, 0, 255));
    assert_eq!(cal.method_count(), 0);
}

#[test]
fn test_calendar_multiple_seasons() {
    let mut cal = Calendar::new(ObisCode::new(0, 0, 204, 0, 0, 255));
    cal.add_season("Summer".to_string(), [1, 6, 24, 0, 0], [31, 8, 24, 0, 0]);
    cal.add_season("Winter".to_string(), [1, 12, 24, 0, 0], [28, 2, 25, 0, 0]);
    assert_eq!(cal.season_count(), 2);
}

#[test]
fn test_calendar_multiple_special_days() {
    let mut cal = Calendar::new(ObisCode::new(0, 0, 204, 0, 0, 255));
    cal.add_special_day(1, 1); // New Year
    cal.add_special_day(365, 2); // New Year Eve
    assert_eq!(cal.special_day_count(), 2);
}
