use lib::{DlmsData, ObisCode};
use lib::han_setup::HanSetup;

#[test]
fn test_han_setup_new() {
    let han = HanSetup::new(ObisCode::new(0, 0, 1, 0, 0, 255));
    assert_eq!(han.class_id(), 209);
    assert!(!han.enabled());
}

#[test]
fn test_han_setup_enable() {
    let mut han = HanSetup::new(ObisCode::new(0, 0, 1, 0, 0, 255));
    han.set_enabled(true);
    assert!(han.enabled());
}

#[test]
fn test_han_setup_roundtrip() {
    let mut han = HanSetup::new(ObisCode::new(0, 0, 1, 0, 0, 255));
    let bytes = DlmsData::Boolean(true);
    han.apply_attribute(2, Some(bytes)).unwrap();
    assert!(han.enabled());
}

#[test]
fn test_han_setup_network_key() {
    let mut han = HanSetup::new(ObisCode::new(0, 0, 1, 0, 0, 255));
    han.set_network_key(vec![0x01, 0x02, 0x03, 0x04]);
    assert_eq!(han.network_key().len(), 4);
}
