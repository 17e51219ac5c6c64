use lib::c63_status_mapping::StatusMapping;
use lib::ObisCode;

#[test]
fn test_status_mapping_new() {
    let mapping = StatusMapping::new(ObisCode::new(0, 0, 63, 0, 0, 255));
    assert_eq!(mapping.class_id(), 63);
}

#[test]
fn test_status_mapping_status_word() {
    let mut mapping = StatusMapping::new(ObisCode::new(0, 0, 63, 0, 0, 255));
    mapping.set_status_word(0xDEADBEEF);
    assert_eq!(mapping.status_word(), 0xDEADBEEF);
}

#[test]
fn test_status_mapping_bit_operations() {
    let mut mapping = StatusMapping::new(ObisCode::new(0, 0, 63, 0, 0, 255));
    mapping.set_bit(0, true);
    assert!(mapping.get_bit_status(0));
    mapping.set_bit(0, false);
    assert!(!mapping.get_bit_status(0));
}

#[test]
fn test_status_mapping_multiple_bits() {
    let mut mapping = StatusMapping::new(ObisCode::new(0, 0, 63, 0, 0, 255));
    mapping.set_bit(0, true);
    mapping.set_bit(3, true);
    mapping.set_bit(7, true);
    assert!(mapping.get_bit_status(0));
    assert!(mapping.get_bit_status(3));
    assert!(mapping.get_bit_status(7));
    assert!(!mapping.get_bit_status(1));
}

#[test]
fn test_status_mapping_mapping_table() {
    let mut mapping = StatusMapping::new(ObisCode::new(0, 0, 63, 0, 0, 255));
    mapping.add_mapping(0, "Power OK".to_string());
    mapping.add_mapping(1, "Communication Error".to_string());
    assert_eq!(mapping.mapping_table().len(), 2);
}

#[test]
fn test_status_mapping_active_descriptions() {
    let mut mapping = StatusMapping::new(ObisCode::new(0, 0, 63, 0, 0, 255));
    mapping.add_mapping(0, "Power OK".to_string());
    mapping.add_mapping(1, "Error".to_string());
    mapping.set_bit(0, true);
    let active = mapping.get_active_descriptions();
    assert_eq!(active.len(), 1);
    assert_eq!(active[0], "Power OK");
}

#[test]
fn test_status_mapping_attribute_count() {
    let mapping = StatusMapping::new(ObisCode::new(0, 0, 63, 0, 0, 255));
    assert_eq!(mapping.attribute_count(), 2);
}

#[test]
fn test_status_mapping_method_count() {
    let mapping = StatusMapping::new(ObisCode::new(0, 0, 63, 0, 0, 255));
    assert_eq!(mapping.method_count(), 0);
}
