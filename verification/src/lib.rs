//! COSEM interface classes for DLMS/COSEM metering devices.
//!
//! Each interface class keeps its attributes as plain values and exposes
//! them as [`DlmsData`] values (`attribute_data`) or, where the class fixes
//! the wire form itself, as bytes (`attribute_to_bytes`).  Writes go the other
//! way (`apply_attribute`), taking the value that the A-XDR decoder produced.
//! Each class has a mathematical view (`@`) over which its methods are
//! specified and its laws are proved.

pub mod cosem;
pub mod text;
pub mod account_bluebook;
pub mod actuator;
pub mod actuator_setup;
pub mod alarm_handler;
pub mod array_manager;
pub mod association_ln;
pub mod billing;
pub mod c53_sfsk_mac_counters;
pub mod c55_iec61334_llc_setup;
pub mod c58_llc_type2_setup;
pub mod c5_demand_register;
pub mod c61_register_table;
pub mod c63_status_mapping;
pub mod c67_sensor_manager;
pub mod c68_arbitrator;
pub mod c6_register_activation;
pub mod c70_disconnect_control;
pub mod c71_limiter;
pub mod c76_dlms_mbus_port_setup;
pub mod c80_prime_llc_sscs_setup;
pub mod c81_prime_physical_counters;
pub mod c83_prime_mac_func_params;
pub mod c84_prime_mac_counters;
pub mod c85_prime_mac_network_admin;
pub mod c86_prime_app_identification;
pub mod c92_g3_6lowpan_setup;
pub mod c9_script_table;
pub mod calendar;
pub mod class_id;
pub mod clock;
pub mod cluster;
pub mod comm_control;
pub mod compact_data;
pub mod cosem_data_protection;
pub mod data;
pub mod data_logger;
pub mod data_storage;
pub mod day_profile;
pub mod demand;
pub mod direct_disconnect;
pub mod ethernet_setup;
pub mod event_logger;
pub mod extended_profile;
pub mod extended_register;
pub mod firmware_management;
pub mod gas_valve;
pub mod han_setup;
pub mod harmonic_monitor;
pub mod heat_cost_allocator;
pub mod identity;
pub mod iec62055_attributes;
pub mod iec_public_key;
pub mod image_transfer;
pub mod infrared_setup;
pub mod ipv4_setup;
pub mod limiter;
pub mod load_profile_switch;
pub mod lp_setup;
pub mod mac_address_setup;
pub mod maximum_demand;

pub use cosem::{CosemDateTime, CosemObjectError, DataView, DlmsData, ObisCode};
pub use account_bluebook::AccountBluebook;
pub use actuator::{Actuator, ActuatorState};
pub use actuator_setup::ActuatorSetup;
pub use c68_arbitrator::Arbitrator;
pub use alarm_handler::{AlarmHandler, Alarm};
pub use array_manager::ArrayManager;
pub use association_ln::AssociationLN;
pub use billing::Billing;
pub use calendar::{Calendar, SeasonEntry, WeekDayProfile};
pub use clock::Clock;
pub use comm_control::{CommControl, CommChannel};
pub use cluster::Cluster;
pub use compact_data::CompactData;
pub use cosem_data_protection::CosemDataProtection;
pub use data::Data;
pub use data_logger::{DataLogger, DataLogEntry};
pub use data_storage::{DataStorage, DataStorageEntry};
pub use day_profile::DayProfile;
pub use demand::Demand;
pub use c5_demand_register::DemandRegister;
pub use direct_disconnect::DirectDisconnect;
pub use c70_disconnect_control::{DisconnectControl, DisconnectState};
pub use event_logger::{EventLogger, EventLogEntry};
pub use ethernet_setup::{EthernetSetup, DuplexMode};
pub use extended_profile::{ExtendedProfile, ExtendedProfileEntry};
pub use extended_register::ExtendedRegister;
pub use firmware_management::FirmwareManagement;
pub use gas_valve::{GasValve, GasValveState};
pub use c53_sfsk_mac_counters::SfskMacCounters;
pub use c55_iec61334_llc_setup::Iec61334LlcSetup;
pub use harmonic_monitor::{HarmonicMonitor, MonitoringMode};
pub use han_setup::HanSetup;
pub use heat_cost_allocator::HeatCostAllocator;
pub use iec62055_attributes::Iec62055Attributes;
pub use c58_llc_type2_setup::LlcType2Setup;
pub use c61_register_table::RegisterTable;
pub use iec_public_key::{IecPublicKey, KeyAlgorithm, KeyUsage};
pub use image_transfer::{ImageTransfer, ImageTransferStatus};
pub use infrared_setup::InfraredSetup;
pub use ipv4_setup::Ipv4Setup;
pub use c71_limiter::Limiter;
pub use load_profile_switch::UtilityTables;
pub use c92_g3_6lowpan_setup::G36LoWPANSetup;
pub use lp_setup::LpSetup;
pub use mac_address_setup::MacAddressSetup;
pub use maximum_demand::MaximumDemand;
pub use c76_dlms_mbus_port_setup::DlmsMBusPortSetup;
pub use c80_prime_llc_sscs_setup::PrimeLlcSscsSetup;
pub use c81_prime_physical_counters::PrimePhysicalCounters;
pub use c83_prime_mac_func_params::PrimeMacFuncParams;
pub use c84_prime_mac_counters::PrimeMacCounters;
pub use c85_prime_mac_network_admin::PrimeMacNetworkAdmin;
pub use c86_prime_app_identification::PrimeAppIdentification;
pub use c6_register_activation::{RegisterActivation, RegisterAssignment};
pub use c67_sensor_manager::{SensorEntry, SensorManager};
pub use c9_script_table::{Script, ScriptTable};
pub use c63_status_mapping::StatusMapping;
pub use identity::Identity;
