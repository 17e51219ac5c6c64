use lib::{DlmsData, ObisCode};
use lib::mac_address_setup::MacAddressSetup;

#[test]
fn test_mac_address_setup_new() {
    let mac = MacAddressSetup::new(ObisCode::new(0, 0, 1, 0, 0, 255));
    assert_eq!(mac.class_id(), 43);
}

#[test]
fn test_mac_address_setup_mac() {
    let mac = MacAddressSetup::with_mac(ObisCode::new(0, 0, 1, 0, 0, 255), [0xAA, 0xBB, 0xCC, 0xDD, 0xEE, 0xFF]);
    assert_eq!(mac.mac_string(), "AA:BB:CC:DD:EE:FF");
}

#[test]
fn test_mac_address_setup_roundtrip() {
    let mut mac = MacAddressSetup::new(ObisCode::new(0, 0, 1, 0, 0, 255));
    let bytes = DlmsData::OctetString(vec![1, 2, 3, 4, 5, 6]);
    mac.apply_attribute(2, Some(bytes)).unwrap();
    assert_eq!(*mac.mac_address(), [1, 2, 3, 4, 5, 6]);
}

#[test]
fn test_mac_address_setup_invalid_length() {
    let mut mac = MacAddressSetup::new(ObisCode::new(0, 0, 1, 0, 0, 255));
    let bytes = DlmsData::OctetString(vec![1, 2, 3]);
    assert!(mac.apply_attribute(2, Some(bytes)).is_err());
}
