use lib::cosem::logical_name_bytes;
use lib::{DlmsData, ObisCode};
use lib::load_profile_switch::UtilityTables;

#[test]
fn test_load_profile_switch_new() {
    let lps = UtilityTables::new(ObisCode::new(0, 0, 1, 0, 0, 255));
    assert_eq!(lps.class_id(), 90);
}

#[test]
fn test_load_profile_switch_active_profile() {
    let mut lps = UtilityTables::new(ObisCode::new(0, 0, 1, 0, 0, 255));
    lps.set_active_profile(2);
    assert_eq!(lps.active_profile(), 2);
}

#[test]
fn test_load_profile_switch_period() {
    let mut lps = UtilityTables::new(ObisCode::new(0, 0, 1, 0, 0, 255));
    lps.set_period(900);
    assert_eq!(lps.period(), 900);
}

#[test]
fn test_load_profile_switch_roundtrip() {
    let mut lps = UtilityTables::new(ObisCode::new(0, 0, 1, 0, 0, 255));
    let bytes = DlmsData::Unsigned(3);
    lps.apply_attribute(2, Some(bytes)).unwrap();
    assert_eq!(lps.active_profile(), 3);
}

#[test]
fn test_load_profile_switch_attr1() {
    let lps = UtilityTables::new(ObisCode::new(0, 0, 1, 0, 0, 255));
    let bytes = logical_name_bytes(&lps.logical_name());
    assert_eq!(bytes.len(), 8);
}
