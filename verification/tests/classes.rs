use lib::billing::Billing;
use lib::c70_disconnect_control::DisconnectControl;
use lib::clock::Clock;
use lib::{DlmsData, ObisCode};
use lib::data::Data;
use lib::day_profile::DayProfile;
use lib::demand::Demand;
use lib::maximum_demand::MaximumDemand;
use lib::class_id;

#[test]
fn test_data_class() {
    let obj = Data::new(ObisCode::new(1, 0, 0, 9, 0, 255), DlmsData::NullData);
    assert_eq!(obj.class_id(), 1);
}

#[test]
fn test_clock_class() {
    let obj = Clock::new(ObisCode::new(0, 0, 1, 0, 0, 255));
    assert_eq!(obj.class_id(), 8);
}

#[test]
fn test_demand_class() {
    let obj = Demand::new(ObisCode::new(1, 0, 21, 7, 0, 255), DlmsData::DoubleLong(0));
    assert_eq!(obj.class_id(), 10);
}

#[test]
fn test_billing_class() {
    let obj = Billing::new(ObisCode::new(0, 0, 17, 0, 0, 255));
    assert_eq!(obj.class_id(), 17);
}

#[test]
fn test_maximum_demand_class() {
    let obj = MaximumDemand::new(ObisCode::new(1, 0, 21, 7, 0, 255), DlmsData::DoubleLong(0));
    assert_eq!(obj.class_id(), 34);
}

#[test]
fn test_day_profile_class() {
    let obj = DayProfile::new(ObisCode::new(0, 0, 22, 0, 0, 255));
    assert_eq!(obj.class_id(), 22);
}

#[test]
fn test_disconnect_control_class() {
    let obj = DisconnectControl::new(ObisCode::new(0, 0, 96, 1, 0, 255));
    assert_eq!(obj.class_id(), 70);
}

#[test]
fn test_class_id_constants() {
    assert_eq!(class_id::DATA, 1);
    assert_eq!(class_id::REGISTER, 3);
    assert_eq!(class_id::CLOCK, 8);
    assert_eq!(class_id::DEMAND, 10);
    assert_eq!(class_id::BILLING, 17);
    assert_eq!(class_id::TOTAL, 20);
    assert_eq!(class_id::SINGLE_PHASE, 31);
    assert_eq!(class_id::MAXIMUM_DEMAND, 34);
    assert_eq!(class_id::PROFILE_GENERIC, 7);
}
