use lib::account_bluebook::AccountBluebook;
use lib::{DlmsData, ObisCode};

#[test]
fn test_account_new() {
    let a = AccountBluebook::new(ObisCode::new(0, 0, 1, 0, 0, 255));
    assert_eq!(a.class_id(), 111);
}

#[test]
fn test_account_payer() {
    let mut a = AccountBluebook::new(ObisCode::new(0, 0, 1, 0, 0, 255));
    a.set_payer_name("John Doe".to_string());
    assert_eq!(a.payer_name(), "John Doe");
}

#[test]
fn test_account_credit() {
    let mut a = AccountBluebook::new(ObisCode::new(0, 0, 1, 0, 0, 255));
    a.set_available_credit(10000);
    assert_eq!(a.available_credit(), 10000);
}

#[test]
fn test_account_roundtrip() {
    let mut a = AccountBluebook::new(ObisCode::new(0, 0, 1, 0, 0, 255));
    let bytes = DlmsData::Unsigned(5);
    a.apply_attribute(3, Some(bytes)).unwrap();
    assert_eq!(a.status(), 5);
}
