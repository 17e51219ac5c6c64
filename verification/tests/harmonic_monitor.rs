use lib::ObisCode;
use lib::harmonic_monitor::{HarmonicMonitor, MonitoringMode};

#[test]
fn test_harmonic_monitor_new() {
    let hm = HarmonicMonitor::new(ObisCode::new(0, 0, 112, 0, 0, 255));
    assert_eq!(hm.class_id(), 112);
}

#[test]
fn test_harmonic_monitor_voltage_harmonic() {
    let mut hm = HarmonicMonitor::new(ObisCode::new(0, 0, 112, 0, 0, 255));
    assert!(hm.set_voltage_harmonic(1, 100));
    assert!(hm.set_voltage_harmonic(3, 5));
    assert_eq!(hm.voltage_harmonic(1), Some(100));
    assert_eq!(hm.voltage_harmonic(3), Some(5));
    assert_eq!(hm.voltage_harmonic(64), None);
}

#[test]
fn test_harmonic_monitor_current_harmonic() {
    let mut hm = HarmonicMonitor::new(ObisCode::new(0, 0, 112, 0, 0, 255));
    assert!(hm.set_current_harmonic(1, 80));
    assert!(hm.set_current_harmonic(5, 10));
    assert_eq!(hm.current_harmonic(1), Some(80));
    assert_eq!(hm.current_harmonic(5), Some(10));
}

#[test]
fn test_harmonic_monitor_thd() {
    let mut hm = HarmonicMonitor::new(ObisCode::new(0, 0, 112, 0, 0, 255));
    hm.set_thd_voltage(8);
    hm.set_thd_current(12);
    assert_eq!(hm.thd_voltage(), 8);
    assert_eq!(hm.thd_current(), 12);
}

#[test]
fn test_harmonic_monitor_monitoring_mode() {
    let mut hm = HarmonicMonitor::new(ObisCode::new(0, 0, 112, 0, 0, 255));
    assert_eq!(hm.monitoring_mode(), MonitoringMode::Both);
    hm.set_monitoring_mode(MonitoringMode::VoltageOnly);
    assert_eq!(hm.monitoring_mode(), MonitoringMode::VoltageOnly);
}

#[test]
fn test_harmonic_monitor_sample_rate() {
    let mut hm = HarmonicMonitor::new(ObisCode::new(0, 0, 112, 0, 0, 255));
    hm.set_sample_rate(512);
    assert_eq!(hm.sample_rate(), 512);
}

#[test]
fn test_harmonic_monitor_reset() {
    let mut hm = HarmonicMonitor::new(ObisCode::new(0, 0, 112, 0, 0, 255));
    hm.set_voltage_harmonic(1, 100);
    hm.set_thd_voltage(10);
    hm.execute_action(1, &[]).unwrap();
    assert_eq!(hm.voltage_harmonic(1), Some(0));
    assert_eq!(hm.thd_voltage(), 0);
}

#[test]
fn test_harmonic_monitor_attribute_count() {
    let hm = HarmonicMonitor::new(ObisCode::new(0, 0, 112, 0, 0, 255));
    assert_eq!(hm.attribute_count(), 7);
}

#[test]
fn test_harmonic_monitor_method_count() {
    let hm = HarmonicMonitor::new(ObisCode::new(0, 0, 112, 0, 0, 255));
    assert_eq!(hm.method_count(), 1);
}

#[test]
fn test_monitoring_mode_from_u8() {
    assert_eq!(MonitoringMode::from_u8(0), MonitoringMode::VoltageOnly);
    assert_eq!(MonitoringMode::from_u8(1), MonitoringMode::CurrentOnly);
    assert_eq!(MonitoringMode::from_u8(2), MonitoringMode::Both);
}
