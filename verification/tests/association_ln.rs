use lib::association_ln::AssociationLN;
use lib::ObisCode;

#[test]
fn test_association_ln_new() {
    let assoc = AssociationLN::new(ObisCode::new(0, 0, 40, 0, 0, 255));
    assert_eq!(assoc.class_id(), 9);
}

#[test]
fn test_association_ln_partners() {
    let mut assoc = AssociationLN::new(ObisCode::new(0, 0, 40, 0, 0, 255));
    assoc.set_associated_partners(32, 1);
    assert_eq!(assoc.associated_partners(), (32, 1));
}

#[test]
fn test_association_ln_object_list() {
    let mut assoc = AssociationLN::new(ObisCode::new(0, 0, 40, 0, 0, 255));
    assoc.add_object(1, ObisCode::new(0, 0, 96, 1, 0, 255));
    assoc.add_object(3, ObisCode::new(1, 0, 21, 7, 0, 255));
    assert_eq!(assoc.object_list().len(), 2);
}

#[test]
fn test_association_ln_authentication() {
    let mut assoc = AssociationLN::new(ObisCode::new(0, 0, 40, 0, 0, 255));
    assert!(!assoc.is_authenticated());
    assoc.set_authenticated(true);
    assert!(assoc.is_authenticated());
}

#[test]
fn test_association_ln_attribute_to_bytes() {
    let assoc = AssociationLN::new(ObisCode::new(0, 0, 40, 0, 0, 255));
    let bytes = assoc.attribute_to_bytes(1).unwrap();
    assert!(!bytes.is_empty());
}

#[test]
fn test_association_ln_attribute_count() {
    let assoc = AssociationLN::new(ObisCode::new(0, 0, 40, 0, 0, 255));
    assert_eq!(assoc.attribute_count(), 9);
}

#[test]
fn test_association_ln_method_count() {
    let assoc = AssociationLN::new(ObisCode::new(0, 0, 40, 0, 0, 255));
    assert_eq!(assoc.method_count(), 5);
}
