use lib::cosem::logical_name_bytes;
use lib::c68_arbitrator::Arbitrator;
use lib::ObisCode;

#[test]
fn test_arbitrator_new() {
    let a = Arbitrator::new(ObisCode::new(0, 0, 1, 0, 0, 255));
    assert_eq!(a.class_id(), 68);
}

#[test]
fn test_arbitrator_backup_time() {
    let mut a = Arbitrator::new(ObisCode::new(0, 0, 1, 0, 0, 255));
    a.set_longest_backup_time(7200);
    assert_eq!(a.longest_backup_time(), 7200);
}

#[test]
fn test_arbitrator_attr1() {
    let a = Arbitrator::new(ObisCode::new(0, 0, 1, 0, 0, 255));
    let bytes = logical_name_bytes(&a.logical_name());
    assert_eq!(bytes.len(), 8);
}
