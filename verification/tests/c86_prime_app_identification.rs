use lib::c86_prime_app_identification::PrimeAppIdentification;
use lib::ObisCode;

#[test]
fn C86_PRIMEAppIdentification_test_new() {
    let obj = PrimeAppIdentification::new(ObisCode::new(0,0,0,0,0,0));
    assert_eq!(obj.class_id(), 86);
}

#[test]
fn C86_PRIMEAppIdentification_test_getter() {
    let obj = PrimeAppIdentification::new(ObisCode::new(0,0,0,0,0,0));
    let _ = obj.application_version();
}
