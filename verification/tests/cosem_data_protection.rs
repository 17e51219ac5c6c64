use lib::{DlmsData, ObisCode};
use lib::cosem_data_protection::CosemDataProtection;

#[test]
fn test_data_protection_new() {
    let dp = CosemDataProtection::new(ObisCode::new(0, 0, 1, 0, 0, 255));
    assert_eq!(dp.class_id(), 30);
    assert_eq!(dp.method_count(), 3);
}

#[test]
fn test_data_protection_params() {
    let mut dp = CosemDataProtection::new(ObisCode::new(0, 0, 1, 0, 0, 255));
    dp.set_protection_parameters_get(vec![1, 2, 3]);
    assert_eq!(dp.protection_parameters_get(), &[1, 2, 3]);
}

#[test]
fn test_data_protection_roundtrip() {
    let mut dp = CosemDataProtection::new(ObisCode::new(0, 0, 1, 0, 0, 255));
    let bytes = DlmsData::OctetString(vec![0xAA, 0xBB]);
    dp.apply_attribute(2, Some(bytes)).unwrap();
    assert_eq!(dp.protection_parameters_get(), &[0xAA, 0xBB]);
}

#[test]
fn test_data_protection_methods() {
    let mut dp = CosemDataProtection::new(ObisCode::new(0, 0, 1, 0, 0, 255));
    assert!(dp.execute_action(1, &[]).is_ok());
    assert!(dp.execute_action(4, &[]).is_err());
}
