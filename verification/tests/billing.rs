use lib::billing::Billing;
use lib::{DlmsData, ObisCode};

#[test]
fn test_billing_class_id() {
    let b = Billing::new(ObisCode::new(0, 0, 17, 0, 0, 255));
    assert_eq!(b.class_id(), 17);
}

#[test]
fn test_billing_attr_count() {
    let b = Billing::new(ObisCode::new(0, 0, 17, 0, 0, 255));
    assert_eq!(b.attribute_count(), 10);
}

#[test]
fn test_billing_amount() {
    let mut b = Billing::new(ObisCode::new(0, 0, 17, 0, 0, 255));
    b.set_amount_to_be_paid(1000);
    assert_eq!(b.amount_to_be_paid(), 1000);
}

#[test]
fn test_billing_attr7_encode() {
    let mut b = Billing::new(ObisCode::new(0, 0, 17, 0, 0, 255));
    b.set_amount_to_be_paid(500);
    let value = b.attribute_data(7).unwrap();
    assert_eq!(value, DlmsData::DoubleLong(500));
}
