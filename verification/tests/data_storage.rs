use lib::{DlmsData, ObisCode};
use lib::data_storage::DataStorage;

#[test]
fn test_data_storage_class_id() {
    let ds = DataStorage::new(ObisCode::new(0, 0, 201, 0, 0, 255));
    assert_eq!(ds.class_id(), 201);
}

#[test]
fn test_data_storage_new() {
    let ds = DataStorage::new(ObisCode::new(0, 0, 201, 0, 0, 255));
    assert_eq!(ds.entry_count(), 0);
}

#[test]
fn test_data_storage_put() {
    let mut ds = DataStorage::new(ObisCode::new(0, 0, 201, 0, 0, 255));
    let result = ds.put(vec![1, 2, 3], DlmsData::Unsigned(42));
    assert!(result);
    assert_eq!(ds.entry_count(), 1);
}

#[test]
fn test_data_storage_get() {
    let mut ds = DataStorage::new(ObisCode::new(0, 0, 201, 0, 0, 255));
    ds.put(vec![1, 2, 3], DlmsData::Unsigned(42));
    let value = ds.get(&[1, 2, 3]);
    assert!(value.is_some());
    assert_eq!(value.unwrap().as_u8(), Some(42));
}

#[test]
fn test_data_storage_remove() {
    let mut ds = DataStorage::new(ObisCode::new(0, 0, 201, 0, 0, 255));
    ds.put(vec![1, 2, 3], DlmsData::Unsigned(42));
    let result = ds.remove(&[1, 2, 3]);
    assert!(result);
    assert_eq!(ds.entry_count(), 0);
}

#[test]
fn test_data_storage_clear() {
    let mut ds = DataStorage::new(ObisCode::new(0, 0, 201, 0, 0, 255));
    ds.put(vec![1, 2, 3], DlmsData::Unsigned(42));
    ds.put(vec![4, 5, 6], DlmsData::Unsigned(43));
    ds.clear();
    assert_eq!(ds.entry_count(), 0);
}

#[test]
fn test_data_storage_capacity() {
    let ds = DataStorage::new(ObisCode::new(0, 0, 201, 0, 0, 255));
    let value = ds.attribute_data(4).unwrap();
    assert_eq!(value, DlmsData::LongUnsigned(1000));
}

#[test]
fn test_data_storage_with_capacity() {
    let ds = DataStorage::with_capacity(ObisCode::new(0, 0, 201, 0, 0, 255), 500);
    assert_eq!(ds.entry_count(), 0);
}
