use lib::{DlmsData, ObisCode};
use lib::iec_public_key::{IecPublicKey, KeyAlgorithm, KeyUsage};

#[test]
fn test_iec_public_key_new() {
    let key = IecPublicKey::new(ObisCode::new(0, 0, 90, 0, 0, 255));
    assert_eq!(key.class_id(), 90);
}

#[test]
fn test_iec_public_key_with_key() {
    let key_data = vec![0x01, 0x02, 0x03, 0x04];
    let key = IecPublicKey::with_key(
        ObisCode::new(0, 0, 90, 0, 0, 255),
        key_data.clone(),
        "key-001".to_string(),
    );
    assert_eq!(key.public_key(), &key_data);
    assert_eq!(key.key_id(), "key-001");
}

#[test]
fn test_iec_public_key_algorithm() {
    let mut key = IecPublicKey::new(ObisCode::new(0, 0, 90, 0, 0, 255));
    key.set_algorithm(KeyAlgorithm::Ecc);
    assert_eq!(key.algorithm(), KeyAlgorithm::Ecc);
}

#[test]
fn test_iec_public_key_usage() {
    let mut key = IecPublicKey::new(ObisCode::new(0, 0, 90, 0, 0, 255));
    key.set_key_usage(KeyUsage::Signature);
    assert_eq!(key.key_usage(), KeyUsage::Signature);
}

#[test]
fn test_iec_public_key_is_valid() {
    let mut key = IecPublicKey::new(ObisCode::new(0, 0, 90, 0, 0, 255));
    assert!(!key.is_valid());
    
    key.set_public_key(vec![0x01, 0x02]);
    key.set_key_id("key-001".to_string());
    assert!(key.is_valid());
}

#[test]
fn test_iec_public_key_attribute_count() {
    let key = IecPublicKey::new(ObisCode::new(0, 0, 90, 0, 0, 255));
    assert_eq!(key.attribute_count(), 5);
}

#[test]
fn test_iec_public_key_method_count() {
    let key = IecPublicKey::new(ObisCode::new(0, 0, 90, 0, 0, 255));
    assert_eq!(key.method_count(), 1);
}

#[test]
fn test_iec_public_key_attr2_roundtrip() {
    let mut key = IecPublicKey::new(ObisCode::new(0, 0, 90, 0, 0, 255));
    let encoded = DlmsData::OctetString(vec![0xAA, 0xBB, 0xCC]);
    key.apply_attribute(2, Some(encoded)).unwrap();
    assert_eq!(key.public_key(), &[0xAA, 0xBB, 0xCC]);
}

#[test]
fn test_key_algorithm_from_u8() {
    assert_eq!(KeyAlgorithm::from_u8(0), KeyAlgorithm::Rsa);
    assert_eq!(KeyAlgorithm::from_u8(1), KeyAlgorithm::Ecc);
    assert_eq!(KeyAlgorithm::from_u8(2), KeyAlgorithm::Aes);
    assert_eq!(KeyAlgorithm::from_u8(99), KeyAlgorithm::Other);
}

#[test]
fn test_key_usage_from_u8() {
    assert_eq!(KeyUsage::from_u8(0), KeyUsage::Encryption);
    assert_eq!(KeyUsage::from_u8(1), KeyUsage::Signature);
    assert_eq!(KeyUsage::from_u8(2), KeyUsage::Both);
}
