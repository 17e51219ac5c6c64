use lib::c67_sensor_manager::{SensorEntry, SensorManager};
use lib::ObisCode;

#[test]
fn test_sensor_manager_new() {
    let sm = SensorManager::new(ObisCode::new(0, 0, 1, 0, 0, 255));
    assert_eq!(sm.class_id(), 67);
}

#[test]
fn test_sensor_manager_add_remove() {
    let mut sm = SensorManager::new(ObisCode::new(0, 0, 1, 0, 0, 255));
    sm.add_sensor(SensorEntry {
        sensor_reference: ObisCode::new(0, 0, 1, 0, 0, 255),
        sensor_type: 1,
    });
    assert_eq!(sm.sensor_list().len(), 1);
    sm.remove_sensor(0);
    assert!(sm.sensor_list().is_empty());
}

#[test]
fn test_sensor_manager_methods() {
    let mut sm = SensorManager::new(ObisCode::new(0, 0, 1, 0, 0, 255));
    assert!(sm.execute_action(1, &[]).is_ok());
    assert!(sm.execute_action(4, &[]).is_err());
}
