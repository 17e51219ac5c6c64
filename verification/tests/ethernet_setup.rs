use lib::{DlmsData, ObisCode};
use lib::ethernet_setup::{DuplexMode, EthernetSetup};

#[test]
fn test_ethernet_setup_new() {
    let eth = EthernetSetup::new(ObisCode::new(0, 0, 103, 0, 0, 255));
    assert_eq!(eth.class_id(), 103);
}

#[test]
fn test_ethernet_setup_mac_address() {
    let mut eth = EthernetSetup::new(ObisCode::new(0, 0, 103, 0, 0, 255));
    eth.set_mac_address([0xAA, 0xBB, 0xCC, 0xDD, 0xEE, 0xFF]);
    assert_eq!(eth.mac_string(), "AA:BB:CC:DD:EE:FF");
}

#[test]
fn test_ethernet_setup_link_speed() {
    let mut eth = EthernetSetup::new(ObisCode::new(0, 0, 103, 0, 0, 255));
    eth.set_link_speed(1_000_000_000); // 1 Gbps
    assert_eq!(eth.link_speed(), 1_000_000_000);
    assert_eq!(eth.link_speed_mbps(), 1000);
}

#[test]
fn test_ethernet_setup_duplex_mode() {
    let mut eth = EthernetSetup::new(ObisCode::new(0, 0, 103, 0, 0, 255));
    eth.set_duplex_mode(DuplexMode::Full);
    assert_eq!(eth.duplex_mode(), DuplexMode::Full);
}

#[test]
fn test_ethernet_setup_auto_negotiation() {
    let mut eth = EthernetSetup::new(ObisCode::new(0, 0, 103, 0, 0, 255));
    assert!(eth.auto_negotiation());
    eth.set_auto_negotiation(false);
    assert!(!eth.auto_negotiation());
}

#[test]
fn test_ethernet_setup_link_status() {
    let mut eth = EthernetSetup::new(ObisCode::new(0, 0, 103, 0, 0, 255));
    assert!(!eth.is_connected());
    eth.set_link_status(true);
    assert!(eth.is_connected());
}

#[test]
fn test_ethernet_setup_mtu() {
    let mut eth = EthernetSetup::new(ObisCode::new(0, 0, 103, 0, 0, 255));
    eth.set_mtu(9000); // Jumbo frames
    assert_eq!(eth.mtu(), 9000);
}

#[test]
fn test_ethernet_setup_attribute_count() {
    let eth = EthernetSetup::new(ObisCode::new(0, 0, 103, 0, 0, 255));
    assert_eq!(eth.attribute_count(), 7);
}

#[test]
fn test_ethernet_setup_method_count() {
    let eth = EthernetSetup::new(ObisCode::new(0, 0, 103, 0, 0, 255));
    assert_eq!(eth.method_count(), 0);
}

#[test]
fn test_duplex_mode_from_u8() {
    assert_eq!(DuplexMode::from_u8(0), DuplexMode::Half);
    assert_eq!(DuplexMode::from_u8(1), DuplexMode::Full);
}

#[test]
fn test_ethernet_setup_mac_roundtrip() {
    let mut eth = EthernetSetup::new(ObisCode::new(0, 0, 103, 0, 0, 255));
    let encoded = DlmsData::OctetString(vec![0x01, 0x02, 0x03, 0x04, 0x05, 0x06]);
    eth.apply_attribute(2, Some(encoded)).unwrap();
    assert_eq!(*eth.mac_address(), [0x01, 0x02, 0x03, 0x04, 0x05, 0x06]);
}
