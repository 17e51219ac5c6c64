use lib::array_manager::ArrayManager;
use lib::ObisCode;

#[test]
fn test_am_new() {
    let a = ArrayManager::new(ObisCode::new(0, 0, 1, 0, 0, 255));
    assert_eq!(a.class_id(), 123);
}

#[test]
fn test_am_add_remove() {
    let mut a = ArrayManager::new(ObisCode::new(0, 0, 1, 0, 0, 255));
    a.add_object(ObisCode::new(0, 0, 1, 0, 0, 255));
    a.remove_object(0);
    assert!(a.managed_objects().is_empty());
}

#[test]
fn test_am_clear() {
    let mut a = ArrayManager::new(ObisCode::new(0, 0, 1, 0, 0, 255));
    a.add_object(ObisCode::new(0, 0, 1, 0, 0, 255));
    a.clear();
    assert!(a.managed_objects().is_empty());
}

#[test]
fn test_am_methods() {
    let mut a = ArrayManager::new(ObisCode::new(0, 0, 1, 0, 0, 255));
    assert!(a.execute_action(1, &[]).is_ok());
    assert!(a.execute_action(4, &[]).is_err());
}
