use lib::compact_data::CompactData;
use lib::{DlmsData, ObisCode};

#[test]
fn test_compact_data_new() {
    let cd = CompactData::new(ObisCode::new(0, 0, 1, 0, 0, 255));
    assert_eq!(cd.class_id(), 62);
    assert!(cd.buffer().is_empty());
}

#[test]
fn test_compact_data_buffer() {
    let mut cd = CompactData::new(ObisCode::new(0, 0, 1, 0, 0, 255));
    cd.set_buffer(vec![1, 2, 3, 4, 5]);
    assert_eq!(cd.buffer().len(), 5);
}

#[test]
fn test_compact_data_roundtrip() {
    let mut cd = CompactData::new(ObisCode::new(0, 0, 1, 0, 0, 255));
    let bytes = DlmsData::OctetString(vec![0xDE, 0xAD, 0xBE, 0xEF]);
    cd.apply_attribute(2, Some(bytes)).unwrap();
    assert_eq!(cd.buffer(), &[0xDE, 0xAD, 0xBE, 0xEF]);
}
