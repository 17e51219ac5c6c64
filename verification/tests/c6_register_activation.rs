use lib::cosem::logical_name_bytes;
use lib::c6_register_activation::{RegisterActivation, RegisterAssignment};
use lib::ObisCode;

#[test]
fn test_register_activation_new() {
    let ra = RegisterActivation::new(ObisCode::new(0, 0, 1, 0, 0, 255));
    assert_eq!(ra.class_id(), 6);
}

#[test]
fn test_register_activation_add() {
    let mut ra = RegisterActivation::new(ObisCode::new(0, 0, 1, 0, 0, 255));
    ra.add_register(RegisterAssignment {
        register_reference: ObisCode::new(0, 0, 1, 0, 0, 255),
        mask_list: vec![],
    });
    assert_eq!(ra.register_assignments().len(), 1);
}

#[test]
fn test_register_activation_remove() {
    let mut ra = RegisterActivation::new(ObisCode::new(0, 0, 1, 0, 0, 255));
    ra.add_register(RegisterAssignment {
        register_reference: ObisCode::new(0, 0, 1, 0, 0, 255),
        mask_list: vec![],
    });
    ra.remove_register(0);
    assert!(ra.register_assignments().is_empty());
}

#[test]
fn test_register_activation_attr1() {
    let ra = RegisterActivation::new(ObisCode::new(0, 0, 1, 0, 0, 255));
    let bytes = logical_name_bytes(&ra.logical_name());
    assert_eq!(bytes.len(), 8);
}
