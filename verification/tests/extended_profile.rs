use lib::cosem::logical_name_bytes;
use lib::{DlmsData, ObisCode};
use lib::extended_profile::{ExtendedProfile, ExtendedProfileEntry};

#[test]
fn test_extended_profile_class_id() {
    let ep = ExtendedProfile::new(ObisCode::new(1, 0, 99, 1, 0, 255));
    assert_eq!(ep.class_id(), 200);
}

#[test]
fn test_extended_profile_new() {
    let ep = ExtendedProfile::new(ObisCode::new(1, 0, 99, 1, 0, 255));
    assert_eq!(ep.entry_count(), 0);
}

#[test]
fn test_extended_profile_add_entry() {
    let mut ep = ExtendedProfile::new(ObisCode::new(1, 0, 99, 1, 0, 255));
    ep.add_entry(ExtendedProfileEntry {
        timestamp: DlmsData::DateTime([0; 12]),
        value: DlmsData::DoubleLong(100),
        quality_indicator: 0,
        status_flags: 0,
    });
    assert_eq!(ep.entry_count(), 1);
}

#[test]
fn test_extended_profile_clear() {
    let mut ep = ExtendedProfile::new(ObisCode::new(1, 0, 99, 1, 0, 255));
    ep.add_entry(ExtendedProfileEntry {
        timestamp: DlmsData::DateTime([0; 12]),
        value: DlmsData::DoubleLong(100),
        quality_indicator: 0,
        status_flags: 0,
    });
    ep.clear();
    assert_eq!(ep.entry_count(), 0);
}

#[test]
fn test_extended_profile_attribute_count() {
    let ep = ExtendedProfile::new(ObisCode::new(1, 0, 99, 1, 0, 255));
    assert_eq!(ep.attribute_count(), 8);
}

#[test]
fn test_extended_profile_method_count() {
    let ep = ExtendedProfile::new(ObisCode::new(1, 0, 99, 1, 0, 255));
    assert_eq!(ep.method_count(), 2);
}

#[test]
fn test_extended_profile_attr1() {
    let ep = ExtendedProfile::new(ObisCode::new(1, 0, 99, 1, 0, 255));
    let bytes = logical_name_bytes(&ep.logical_name());
    assert_eq!(bytes.len(), 8);
}
