use lib::ObisCode;
use lib::ipv4_setup::Ipv4Setup;

#[test]
fn test_ipv4_setup_new() {
    let ipv4 = Ipv4Setup::new(ObisCode::new(0, 0, 42, 0, 0, 255));
    assert_eq!(ipv4.class_id(), 42);
}

#[test]
fn test_ipv4_setup_ip_address() {
    let mut ipv4 = Ipv4Setup::new(ObisCode::new(0, 0, 42, 0, 0, 255));
    ipv4.set_ip_address([192, 168, 1, 100]);
    assert_eq!(ipv4.ip_address(), [192, 168, 1, 100]);
}

#[test]
fn test_ipv4_setup_subnet_mask() {
    let mut ipv4 = Ipv4Setup::new(ObisCode::new(0, 0, 42, 0, 0, 255));
    ipv4.set_subnet_mask([255, 255, 255, 0]);
    assert_eq!(ipv4.subnet_mask(), [255, 255, 255, 0]);
}

#[test]
fn test_ipv4_setup_gateway() {
    let mut ipv4 = Ipv4Setup::new(ObisCode::new(0, 0, 42, 0, 0, 255));
    ipv4.set_gateway([192, 168, 1, 1]);
    assert_eq!(ipv4.gateway(), [192, 168, 1, 1]);
}

#[test]
fn test_ipv4_setup_dns() {
    let mut ipv4 = Ipv4Setup::new(ObisCode::new(0, 0, 42, 0, 0, 255));
    ipv4.set_primary_dns([8, 8, 8, 8]);
    ipv4.set_secondary_dns([8, 8, 4, 4]);
    assert_eq!(ipv4.primary_dns(), [8, 8, 8, 8]);
    assert_eq!(ipv4.secondary_dns(), [8, 8, 4, 4]);
}

#[test]
fn test_ipv4_setup_dhcp() {
    let mut ipv4 = Ipv4Setup::new(ObisCode::new(0, 0, 42, 0, 0, 255));
    ipv4.set_dhcp_enabled(true);
    assert!(ipv4.dhcp_enabled());
}

#[test]
fn test_ipv4_setup_attribute_count() {
    let ipv4 = Ipv4Setup::new(ObisCode::new(0, 0, 42, 0, 0, 255));
    assert_eq!(ipv4.attribute_count(), 7);
}

#[test]
fn test_ipv4_setup_method_count() {
    let ipv4 = Ipv4Setup::new(ObisCode::new(0, 0, 42, 0, 0, 255));
    assert_eq!(ipv4.method_count(), 0);
}

#[test]
fn test_ipv4_setup_ip_to_string() {
    let ip = [192, 168, 1, 100];
    let s = Ipv4Setup::ip_to_string(ip);
    assert_eq!(s, "192.168.1.100");
}
