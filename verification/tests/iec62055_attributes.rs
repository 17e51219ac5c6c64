use lib::ObisCode;
use lib::iec62055_attributes::Iec62055Attributes;

#[test]
fn test_iec62055_new() {
    let i = Iec62055Attributes::new(ObisCode::new(0, 0, 1, 0, 0, 255));
    assert_eq!(i.class_id(), 116);
}

#[test]
fn test_iec62055_key() {
    let mut i = Iec62055Attributes::new(ObisCode::new(0, 0, 1, 0, 0, 255));
    i.set_key_id(12345);
    assert_eq!(i.key_id(), 12345);
}
