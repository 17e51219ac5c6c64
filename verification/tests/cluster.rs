use lib::cosem::logical_name_bytes;
use lib::cluster::Cluster;
use lib::ObisCode;

#[test]
fn test_cluster_new() {
    let c = Cluster::new(ObisCode::new(0, 0, 1, 0, 0, 255));
    assert_eq!(c.class_id(), 85);
}

#[test]
fn test_cluster_members() {
    let mut c = Cluster::new(ObisCode::new(0, 0, 1, 0, 0, 255));
    c.add_member(ObisCode::new(0, 0, 1, 0, 0, 255));
    c.add_member(ObisCode::new(0, 0, 1, 0, 0, 255));
    assert_eq!(c.members().len(), 2);
}

#[test]
fn test_cluster_clear() {
    let mut c = Cluster::new(ObisCode::new(0, 0, 1, 0, 0, 255));
    c.add_member(ObisCode::new(0, 0, 1, 0, 0, 255));
    c.clear_members();
    assert!(c.members().is_empty());
}

#[test]
fn test_cluster_attr1() {
    let c = Cluster::new(ObisCode::new(0, 0, 1, 0, 0, 255));
    let bytes = logical_name_bytes(&c.logical_name());
    assert_eq!(bytes.len(), 8);
}
