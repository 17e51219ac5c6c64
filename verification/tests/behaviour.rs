use lib::actuator::{Actuator, ActuatorState};
use lib::array_manager::ArrayManager;
use lib::c67_sensor_manager::{SensorEntry, SensorManager};
use lib::c6_register_activation::{RegisterActivation, RegisterAssignment};
use lib::c70_disconnect_control::{DisconnectControl, DisconnectState};
use lib::clock::Clock;
use lib::cluster::Cluster;
use lib::cosem::{bytes_eq, logical_name_bytes};
use lib::data_logger::DataLogger;
use lib::data_storage::DataStorage;
use lib::day_profile::DayProfile;
use lib::ethernet_setup::{DuplexMode, EthernetSetup};
use lib::event_logger::EventLogger;
use lib::extended_profile::{ExtendedProfile, ExtendedProfileEntry};
use lib::firmware_management::FirmwareManagement;
use lib::gas_valve::{GasValve, GasValveState};
use lib::harmonic_monitor::{HarmonicMonitor, MonitoringMode};
use lib::identity::Identity;
use lib::iec_public_key::{IecPublicKey, KeyAlgorithm, KeyUsage};
use lib::image_transfer::{ImageTransfer, ImageTransferStatus};
use lib::infrared_setup::InfraredSetup;
use lib::lp_setup::LpSetup;
use lib::mac_address_setup::MacAddressSetup;
use lib::{CosemDateTime, CosemObjectError, DlmsData, ObisCode};

fn ln() -> ObisCode {
    ObisCode::new(0, 0, 96, 1, 0, 255)
}

#[test]
fn check_storage_put_then_get_new_key() {
    let mut ds = DataStorage::with_capacity(ln(), 3);
    assert!(ds.put(vec![1], DlmsData::Unsigned(1)));
    assert!(ds.put(vec![2], DlmsData::Unsigned(2)));
    assert_eq!(ds.get(&[2]), Some(&DlmsData::Unsigned(2)));
    assert_eq!(ds.get(&[3]), None);
}

#[test]
fn check_storage_duplicate_key_keeps_first() {
    let mut ds = DataStorage::new(ln());
    ds.put(vec![7, 7], DlmsData::Unsigned(1));
    ds.put(vec![7, 7], DlmsData::Unsigned(2));
    assert_eq!(ds.get(&[7, 7]), Some(&DlmsData::Unsigned(1)));
    assert!(ds.remove(&[7, 7]));
    assert_eq!(ds.get(&[7, 7]), Some(&DlmsData::Unsigned(2)));
}

#[test]
fn check_storage_full_refuses() {
    let mut ds = DataStorage::with_capacity(ln(), 1);
    assert!(ds.put(vec![1], DlmsData::Unsigned(1)));
    assert!(!ds.put(vec![2], DlmsData::Unsigned(2)));
    assert_eq!(ds.entry_count(), 1);
    assert!(!ds.remove(&[9]));
    assert_eq!(ds.attribute_data(3), Some(DlmsData::LongUnsigned(1)));
    assert_eq!(ds.apply_attribute(4, Some(DlmsData::LongUnsigned(5))), Err(CosemObjectError::AttributeNotSupported(0)));
}

#[test]
fn check_storage_entry_value_has_zero_timestamp() {
    let mut ds = DataStorage::new(ln());
    ds.put(vec![1, 2], DlmsData::Boolean(true));
    assert_eq!(
        ds.attribute_data(2),
        Some(DlmsData::Array(vec![DlmsData::Structure(vec![
            DlmsData::OctetString(vec![1, 2]),
            DlmsData::Boolean(true),
            DlmsData::DateTime([0; 12]),
        ])]))
    );
}

#[test]
fn check_event_logger_numbering_after_overflow() {
    let mut el = EventLogger::new(ln());
    for i in 0..100u16 {
        assert_eq!(el.log_event(i, vec![]), i);
    }
    assert_eq!(el.log_event(500, vec![1]), 100);
    assert_eq!(el.entry_count(), 100);
    assert!(el.get_entry(0).is_none());
    assert_eq!(el.get_entry(1).unwrap().event_code, 1);
    assert_eq!(el.get_entry(100).unwrap().event_code, 500);
}

#[test]
fn check_event_logger_enabled_attribute() {
    let mut el = EventLogger::new(ln());
    assert_eq!(el.apply_attribute(5, Some(DlmsData::Boolean(false))), Ok(()));
    assert!(!el.is_enabled());
    assert_eq!(el.attribute_data(5), Some(DlmsData::Boolean(false)));
    assert_eq!(el.apply_attribute(5, Some(DlmsData::Unsigned(1))), Err(CosemObjectError::InvalidData));
    assert_eq!(el.apply_attribute(5, None), Err(CosemObjectError::InvalidData));
    assert_eq!(el.apply_attribute(4, Some(DlmsData::LongUnsigned(3))), Err(CosemObjectError::AttributeNotSupported(4)));
}

#[test]
fn check_data_logger_limits() {
    let mut dl = DataLogger::with_capacity(ln(), 2);
    assert!(dl.log(DlmsData::DoubleLong(1)));
    assert!(dl.log(DlmsData::DoubleLong(2)));
    assert!(!dl.log(DlmsData::DoubleLong(3)));
    assert!(dl.get_entry(2).is_none());
    assert_eq!(dl.get_entry(1).unwrap().quality, 0);
    assert_eq!(dl.get_latest().unwrap().value, DlmsData::DoubleLong(2));
    dl.clear();
    assert!(dl.get_latest().is_none());
    assert_eq!(dl.apply_attribute(5, Some(DlmsData::LongUnsigned(900))), Ok(()));
    assert_eq!(dl.capture_interval(), 900);
}

#[test]
fn check_extended_profile_limit_and_period() {
    let mut ep = ExtendedProfile::new(ln());
    for i in 0..1001 {
        ep.add_entry(ExtendedProfileEntry {
            timestamp: DlmsData::DateTime([0; 12]),
            value: DlmsData::DoubleLong(i),
            quality_indicator: 0,
            status_flags: 0,
        });
    }
    assert_eq!(ep.entry_count(), 1000);
    assert_eq!(ep.entries()[999].value, DlmsData::DoubleLong(999));
    assert_eq!(ep.apply_attribute(4, Some(DlmsData::LongUnsigned(60))), Ok(()));
    assert_eq!(ep.attribute_data(4), Some(DlmsData::LongUnsigned(60)));
    assert_eq!(ep.apply_attribute(5, Some(DlmsData::LongUnsigned(60))), Err(CosemObjectError::AttributeNotSupported(5)));
}

#[test]
fn check_firmware_absent_component() {
    let mut fm = FirmwareManagement::new(ln());
    fm.add_component(1, "1.0".to_string());
    assert!(!fm.update_version(2, "2.0".to_string()));
    assert!(fm.get_component(2).is_none());
    assert_eq!(
        fm.attribute_data(2),
        Some(DlmsData::Array(vec![DlmsData::Structure(vec![
            DlmsData::LongUnsigned(1),
            DlmsData::OctetString(b"1.0".to_vec()),
            DlmsData::Unsigned(0),
        ])]))
    );
    assert_eq!(fm.apply_attribute(4, Some(DlmsData::Boolean(true))), Ok(()));
    assert!(fm.is_update_pending());
}

#[test]
fn check_remove_out_of_range() {
    let mut ra = RegisterActivation::new(ln());
    ra.add_register(RegisterAssignment { register_reference: ln(), mask_list: vec![DlmsData::Unsigned(3)] });
    assert!(ra.remove_register(1).is_none());
    assert_eq!(
        ra.attribute_data(2),
        Some(DlmsData::Array(vec![DlmsData::Structure(vec![
            DlmsData::OctetString(vec![0, 0, 96, 1, 0, 255]),
            DlmsData::Array(vec![DlmsData::Unsigned(3)]),
        ])]))
    );
    let mut sm = SensorManager::new(ln());
    sm.add_sensor(SensorEntry { sensor_reference: ln(), sensor_type: 4 });
    assert!(sm.remove_sensor(3).is_none());
    assert_eq!(sm.remove_sensor(0).unwrap().sensor_type, 4);
    assert_eq!(sm.execute_action(3, &[]), Ok(vec![]));
    assert_eq!(sm.execute_action(0, &[]), Err(CosemObjectError::MethodNotSupported(0)));
    let mut am = ArrayManager::new(ln());
    assert!(am.remove_object(0).is_none());
    assert_eq!(am.attribute_data(3), Some(DlmsData::DoubleLongUnsigned(100)));
}

#[test]
fn check_cluster_member_count() {
    let mut c = Cluster::new(ln());
    c.add_member(ln());
    c.add_member(ln());
    assert_eq!(c.attribute_data(3), Some(DlmsData::Unsigned(2)));
    assert_eq!(logical_name_bytes(&c.logical_name()), vec![0x09, 0x06, 0, 0, 96, 1, 0, 255]);
}

#[test]
fn check_day_profile_name_octets() {
    let mut d = DayProfile::new(ln());
    d.set_name("Werktag");
    assert_eq!(d.attribute_data(2), Some(DlmsData::OctetString(b"Werktag".to_vec())));
}

#[test]
fn check_harmonic_orders_and_reset() {
    let mut hm = HarmonicMonitor::new(ln());
    assert!(!hm.set_voltage_harmonic(0, 1));
    assert!(!hm.set_current_harmonic(64, 1));
    assert!(hm.set_voltage_harmonic(63, 9));
    assert_eq!(hm.voltage_harmonic(63), Some(9));
    assert_eq!(hm.voltage_harmonic(0), None);
    hm.set_voltage_harmonic(1, 100);
    hm.set_voltage_harmonic(3, 5);
    hm.set_voltage_harmonic(5, 3);
    assert_eq!(hm.voltage_sum_squares(), 25 + 9 + 81);
    assert_eq!(hm.current_sum_squares(), 0);
    assert_eq!(hm.execute_action(1, &[]), Ok(vec![0, 0]));
    assert_eq!(hm.voltage_harmonic(63), Some(0));
    assert_eq!(hm.voltage_sum_squares(), 0);
    assert_eq!(hm.execute_action(2, &[]), Err(CosemObjectError::MethodNotSupported(2)));
    assert_eq!(hm.apply_attribute(6, Some(DlmsData::Enum(7))), Ok(()));
    assert_eq!(hm.monitoring_mode(), MonitoringMode::Both);
    assert_eq!(hm.attribute_data(6), Some(DlmsData::Enum(7)));
}

#[test]
fn check_mode_codes_round_trip() {
    for m in [MonitoringMode::VoltageOnly, MonitoringMode::CurrentOnly, MonitoringMode::Both] {
        assert_eq!(MonitoringMode::from_u8(m.to_u8()), m);
    }
    for d in [DuplexMode::Half, DuplexMode::Full] {
        assert_eq!(DuplexMode::from_u8(d.to_u8()), d);
    }
    assert_eq!(DuplexMode::from_u8(7), DuplexMode::Full);
    assert_eq!(KeyAlgorithm::Other.to_u8(), 255);
    assert_eq!(KeyAlgorithm::from_u8(KeyAlgorithm::Other.to_u8()), KeyAlgorithm::Other);
    assert_eq!(KeyUsage::from_u8(9), KeyUsage::Both);
}

#[test]
fn check_actuator_state_codes() {
    let mut a = Actuator::new(ln());
    assert_eq!(a.apply_attribute(2, Some(DlmsData::Enum(7))), Ok(()));
    assert_eq!(*a.state(), ActuatorState::Fault);
    assert_eq!(a.attribute_data(2), Some(DlmsData::Enum(2)));
    assert_eq!(a.apply_attribute(2, Some(DlmsData::Boolean(true))), Err(CosemObjectError::InvalidData));
    assert_eq!(a.execute_action(1, None), Err(CosemObjectError::InvalidData));
    assert_eq!(a.execute_action(1, Some(DlmsData::Enum(0))), Ok(vec![]));
    assert_eq!(*a.state(), ActuatorState::Off);
    assert_eq!(a.apply_attribute(3, Some(DlmsData::Long(-3))), Ok(()));
    assert_eq!(a.value(), &DlmsData::Long(-3));
}

#[test]
fn check_gas_valve_fault_and_refusals() {
    let mut gv = GasValve::new(ln());
    assert_eq!(gv.execute_action(1, Some(DlmsData::Unsigned(200))), Ok(vec![]));
    assert_eq!(*gv.state(), GasValveState::Fault);
    assert!(!gv.is_open());
    assert_eq!(gv.execute_action(2, Some(DlmsData::Unsigned(1))), Err(CosemObjectError::MethodNotSupported(2)));
    assert_eq!(gv.apply_attribute(3, None), Err(CosemObjectError::AttributeNotSupported(3)));
}

#[test]
fn check_disconnect_control_commands() {
    let mut dc = DisconnectControl::new(ln());
    assert_eq!(dc.execute_action(3, &[]), Ok(vec![0, 0]));
    assert_eq!(dc.control_state(), DisconnectState::Armed);
    assert_eq!(dc.output_state(), DisconnectState::Connected);
    assert_eq!(dc.execute_action(4, &[]), Err(CosemObjectError::MethodNotSupported(4)));
    assert_eq!(dc.apply_attribute(3, Some(DlmsData::Enum(5))), Err(CosemObjectError::InvalidData));
    assert_eq!(dc.apply_attribute(2, Some(DlmsData::Unsigned(0))), Err(CosemObjectError::InvalidData));
    assert_eq!(dc.apply_attribute(3, Some(DlmsData::Enum(3))), Ok(()));
    assert_eq!(dc.attribute_data(2), Some(DlmsData::Enum(3)));
    assert_eq!(dc.apply_attribute(4, Some(DlmsData::Enum(0))), Err(CosemObjectError::AttributeNotSupported(4)));
}

#[test]
fn check_image_transfer_status_codes() {
    let mut it = ImageTransfer::new(ln());
    assert_eq!(it.apply_attribute(7, Some(DlmsData::Enum(8))), Err(CosemObjectError::InvalidData));
    assert_eq!(it.apply_attribute(7, Some(DlmsData::Enum(7))), Ok(()));
    assert_eq!(it.status(), ImageTransferStatus::ImageNotActivated);
    assert_eq!(it.attribute_data(2), Some(DlmsData::LongUnsigned(200)));
}

#[test]
fn check_clock_date_time_wire() {
    let dt = CosemDateTime::with_date(2024, 6, 15);
    assert_eq!(dt.to_bytes(), [0x07, 0xE8, 6, 15, 0, 0, 0, 0, 0, 0, 0, 0]);
    let back = CosemDateTime::from_bytes(&dt.to_bytes()).unwrap();
    assert_eq!(back.year, Some(2024));
    assert_eq!(back.hour, Some(0));
    assert!(CosemDateTime::from_bytes(&[0; 11]).is_none());
    let full = CosemDateTime {
        year: Some(2023),
        month: Some(12),
        day: Some(31),
        day_of_week: Some(7),
        hour: Some(23),
        minute: Some(59),
        second: Some(58),
        hundredths: Some(99),
        deviation: Some(-60),
        clock_status: Some(0x80),
    };
    assert_eq!(CosemDateTime::from_bytes(&full.to_bytes()), Some(full));
    assert!(!CosemDateTime::default().is_date_specified());
}

#[test]
fn check_clock_methods_and_timezone() {
    let mut c = Clock::new(ln());
    assert_eq!(c.execute_action(1, &[0; 11]), Err(CosemObjectError::InvalidData));
    assert_eq!(c.execute_action(1, &[0; 12]), Ok(vec![0, 0]));
    assert_eq!(c.execute_action(2, &[0; 12]), Err(CosemObjectError::MethodNotSupported(2)));
    assert_eq!(c.apply_attribute(3, Some(DlmsData::Long(-120))), Ok(()));
    assert_eq!(c.timezone(), -120);
    assert_eq!(c.apply_attribute(3, Some(DlmsData::DoubleLong(1))), Err(CosemObjectError::InvalidData));
    assert_eq!(c.apply_attribute(4, Some(DlmsData::Long(1))), Err(CosemObjectError::AttributeNotSupported(4)));
    assert_eq!(c.attribute_data(4), Some(DlmsData::Long(0)));
}

#[test]
fn check_ethernet_setup_values() {
    let mut eth = EthernetSetup::new(ln());
    assert_eq!(eth.link_speed_mbps(), 100);
    eth.set_link_speed(999_999);
    assert_eq!(eth.link_speed_mbps(), 0);
    assert_eq!(
        eth.apply_attribute(2, Some(DlmsData::OctetString(vec![1, 2, 3, 4, 5]))),
        Err(CosemObjectError::InvalidData)
    );
    assert_eq!(eth.apply_attribute(6, Some(DlmsData::Boolean(true))), Err(CosemObjectError::AttributeNotSupported(6)));
    assert_eq!(eth.apply_attribute(4, Some(DlmsData::Enum(0))), Ok(()));
    assert_eq!(eth.duplex_mode(), DuplexMode::Half);
    eth.set_mac_address([0x00, 0x1A, 0x2B, 0x3C, 0x4D, 0x5E]);
    assert_eq!(eth.mac_string(), "00:1A:2B:3C:4D:5E");
}

#[test]
fn check_mac_address_setup_value() {
    let mut mac = MacAddressSetup::new(ln());
    assert_eq!(mac.mac_string(), "00:00:00:00:00:00");
    assert_eq!(mac.attribute_data(2), Some(DlmsData::OctetString(vec![0; 6])));
    assert_eq!(mac.apply_attribute(1, None), Err(CosemObjectError::AttributeNotSupported(1)));
}

#[test]
fn check_public_key_validation() {
    let mut key = IecPublicKey::new(ln());
    assert_eq!(key.execute_action(1, &[]), Err(CosemObjectError::InvalidData));
    key.set_public_key(vec![1]);
    assert_eq!(key.execute_action(1, &[]), Err(CosemObjectError::InvalidData));
    key.set_key_id("k".to_string());
    assert_eq!(key.execute_action(1, &[]), Ok(vec![0, 0]));
    assert_eq!(key.execute_action(2, &[]), Err(CosemObjectError::MethodNotSupported(2)));
    key.set_algorithm(KeyAlgorithm::Other);
    assert_eq!(key.attribute_data(4), Some(DlmsData::Enum(255)));
    assert_eq!(key.apply_attribute(3, Some(DlmsData::VisibleString("id-2".to_string()))), Ok(()));
    assert_eq!(key.key_id(), "id-2");
}

#[test]
fn check_fixed_setups() {
    let ir = InfraredSetup::new();
    assert_eq!(ir.logical_name(), ObisCode::new(0, 0, 45, 0, 0, 255));
    assert_eq!(ir.attribute_data(2), Some(DlmsData::DoubleLongUnsigned(9600)));
    assert_eq!(ir.attribute_data(1), None);
    let lp = LpSetup::new();
    assert_eq!(lp.logical_name(), ObisCode::new(0, 0, 43, 1, 0, 255));
    assert_eq!(lp.attribute_data(2), Some(DlmsData::LongUnsigned(60)));
}

#[test]
fn check_identity_lenient_text() {
    let mut id = Identity::new(ln());
    assert_eq!(id.attribute_from_bytes(2, &[0x09, 0x02, 0xFF, 0x41]), Ok(()));
    assert_eq!(id.manufacturer(), "\u{FFFD}A");
    assert_eq!(id.attribute_from_bytes(3, &[0x09, 0x03, 0x41, 0x42, 0x43]), Ok(()));
    assert_eq!(id.model(), "ABC");
}

#[test]
fn check_bytes_eq() {
    assert!(bytes_eq(&[1, 2, 3], &[1, 2, 3]));
    assert!(!bytes_eq(&[1, 2, 3], &[1, 2]));
    assert!(!bytes_eq(&[1, 2, 3], &[1, 2, 4]));
}

#[test]
fn check_association_partners_wire() {
    let mut a = lib::association_ln::AssociationLN::new(ObisCode::new(0, 0, 40, 0, 0, 255));
    assert_eq!(a.attribute_to_bytes(3), Some(vec![0x02, 0x02, 0x00, 0x10, 0x00, 0x01]));
    a.set_associated_partners(32, 1);
    assert_eq!(a.attribute_to_bytes(3), Some(vec![0x02, 0x02, 0x00, 0x20, 0x00, 0x01]));
    a.set_associated_partners(0x1234, 0xABCD);
    assert_eq!(a.attribute_to_bytes(3), Some(vec![0x02, 0x02, 0x12, 0x34, 0xAB, 0xCD]));
}

#[test]
fn check_clock_adjust_time_shifts() {
    let mut c = Clock::new(ln());
    let mut dt = CosemDateTime::with_date(2024, 2, 28);
    dt.hour = Some(23);
    dt.minute = Some(30);
    dt.second = Some(0);
    dt.day_of_week = Some(3);
    c.set_datetime(dt);
    // offset of one hour, carried in the hour field of the date-time argument
    let arg = [0, 0, 0, 0, 0, 1, 0, 0, 0, 0, 0, 0];
    assert_eq!(c.execute_action(1, &arg), Ok(vec![0, 0]));
    let d = *c.datetime();
    assert_eq!((d.year, d.month, d.day), (Some(2024), Some(2), Some(29)));
    assert_eq!((d.hour, d.minute, d.second), (Some(0), Some(30), Some(0)));
    assert_eq!(d.day_of_week, Some(4));
    // 2023 is no leap year: 28 February plus one day is 1 March
    let mut dt = CosemDateTime::with_date(2023, 2, 28);
    dt.hour = Some(23);
    dt.minute = Some(59);
    dt.second = Some(59);
    c.set_datetime(dt);
    assert_eq!(c.execute_action(1, &[0, 0, 0, 0, 0, 0, 0, 1, 0, 0, 0, 0]), Ok(vec![0, 0]));
    let d = *c.datetime();
    assert_eq!((d.year, d.month, d.day, d.hour, d.minute, d.second), (Some(2023), Some(3), Some(1), Some(0), Some(0), Some(0)));
    // the end of the year rolls over
    let mut dt = CosemDateTime::with_date(2023, 12, 31);
    dt.hour = Some(12);
    dt.minute = Some(0);
    dt.second = Some(0);
    c.set_datetime(dt);
    c.execute_action(1, &[0, 0, 0, 0, 0, 12, 0, 0, 0, 0, 0, 0]).unwrap();
    let d = *c.datetime();
    assert_eq!((d.year, d.month, d.day, d.hour), (Some(2024), Some(1), Some(1), Some(0)));
    // without a time of day the date-time stays as it is
    let only_date = CosemDateTime::with_date(2024, 6, 15);
    c.set_datetime(only_date);
    c.execute_action(1, &arg).unwrap();
    assert_eq!(*c.datetime(), only_date);
}

#[test]
fn check_event_logger_index_is_prior_count() {
    let mut el = EventLogger::new(ln());
    for i in 0..120u16 {
        let before = el.entry_count();
        assert_eq!(el.log_event(i, vec![]), before as u16);
    }
    assert_eq!(el.entry_count(), 100);
    el.clear();
    assert_eq!(el.log_event(7, vec![]), 0);
}
