use lib::{DlmsData, ObisCode};
use lib::day_profile::DayProfile;

#[test]
fn test_day_profile_class_id() {
    let d = DayProfile::new(ObisCode::new(0, 0, 22, 0, 0, 255));
    assert_eq!(d.class_id(), 22);
}

#[test]
fn test_day_profile_add_schedule() {
    let mut d = DayProfile::new(ObisCode::new(0, 0, 22, 0, 0, 255));
    d.add_schedule([0x08, 0x00, 0x00, 0x00], 1);
    assert_eq!(d.schedule_count(), 1);
}

#[test]
fn test_day_profile_attr3() {
    let mut d = DayProfile::new(ObisCode::new(0, 0, 22, 0, 0, 255));
    d.add_schedule([0x08, 0x00, 0x00, 0x00], 1);
    d.add_schedule([0x18, 0x00, 0x00, 0x00], 2);
    let value = d.attribute_data(3).unwrap();
    assert_eq!(
        value,
        DlmsData::Array(vec![
            DlmsData::Structure(vec![DlmsData::Time([0x08, 0x00, 0x00, 0x00]), DlmsData::Unsigned(1)]),
            DlmsData::Structure(vec![DlmsData::Time([0x18, 0x00, 0x00, 0x00]), DlmsData::Unsigned(2)]),
        ])
    );
}
