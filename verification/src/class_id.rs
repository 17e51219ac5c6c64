//! Interface class identifiers.

use vstd::prelude::*;

verus! {

pub const DATA: u16 = 1;
pub const ASSOCIATION_SN: u16 = 2;
pub const REGISTER: u16 = 3;
pub const EXTENDED_REGISTER: u16 = 4;
pub const DEMAND_REGISTER: u16 = 5;
pub const REGISTER_ACTIVATION: u16 = 6;
pub const PROFILE_GENERIC: u16 = 7;
pub const CLOCK: u16 = 8;
pub const ASSOCIATION_LN: u16 = 9;
pub const DEMAND: u16 = 10;
pub const SPECIAL_DAY_TABLE: u16 = 11;
pub const SCHEDULE: u16 = 12;
pub const ACTIVITY_CALENDAR: u16 = 20;
pub const REGISTER_MONITOR: u16 = 21;
pub const SINGLE_ACTION_SCHEDULE: u16 = 22;
pub const MODULE: u16 = 22;
pub const IEC_HDLC_SETUP: u16 = 23;
pub const MBUS_SLAVE_PORT_SETUP: u16 = 25;
pub const UTILITY_TABLES: u16 = 26;
pub const MODEM_CONFIGURATION: u16 = 27;
pub const ZIGBEE_SETUP: u16 = 27; // Same as MODEM_CONFIGURATION
pub const AUTO_CONNECT: u16 = 29;
pub const VALUE_TABLE: u16 = 29;
pub const COSEM_DATA_PROTECTION: u16 = 30;
pub const IDENTITY: u16 = 40;
pub const PUSH_SETUP: u16 = 40; // Same as IDENTITY
pub const PPP_SETUP: u16 = 44;
pub const TCP_UDP_SETUP: u16 = 41;
pub const IPV4_SETUP: u16 = 42;
pub const MAC_ADDRESS_SETUP: u16 = 43;
pub const GPRS_MODEM_SETUP: u16 = 45;
pub const SMTP_SETUP: u16 = 46;
pub const IPV6_SETUP: u16 = 48;
pub const COMPACT_DATA: u16 = 62;
pub const STATUS_MAPPING: u16 = 63;
pub const SECURITY_SETUP: u16 = 64;
pub const PARAMETER_MONITOR: u16 = 65;
pub const MEASUREMENT_DATA_MONITORING: u16 = 66;
pub const SENSOR_MANAGER: u16 = 67;
pub const ARBITRATOR: u16 = 68;
pub const DISCONNECT_CONTROL: u16 = 70;
pub const LIMITER: u16 = 71;
pub const MBUS_CLIENT: u16 = 72;
pub const STANDARD_READOUT: u16 = 23;
pub const APPLICATION_CONTEXT: u16 = 88;
pub const IEC_PUBLIC_KEY: u16 = 90;
pub const NTP_SETUP: u16 = 100;
pub const WISUN_SETUP: u16 = 95;
pub const WISUN_DIAGNOSTIC: u16 = 96;
pub const RPL_DIAGNOSTIC: u16 = 97;
pub const MPL_DIAGNOSTIC: u16 = 98;
pub const ETHERNET_SETUP: u16 = 103;
pub const LTE_SETUP: u16 = 104;
pub const TLS_SETUP: u16 = 105;
pub const MBUS_DIAGNOSTIC: u16 = 110;
pub const ACCOUNT: u16 = 111;
pub const POWER_QUALITY_MONITOR: u16 = 111;
pub const CREDIT: u16 = 112;
pub const HARMONIC_MONITOR: u16 = 112;
pub const CHARGE: u16 = 113;
pub const SAG_SWELL_MONITOR: u16 = 113;
pub const TOKEN_GATEWAY: u16 = 115;
pub const IEC_62055_ATTRIBUTES: u16 = 116;
pub const FUNCTION_CONTROL: u16 = 122;
pub const ARRAY_MANAGER: u16 = 123;
pub const COMM_PORT_PROTECTION: u16 = 124;
// Project-specific identifiers
pub const BILLING: u16 = 17;
pub const TOTAL: u16 = 20;
pub const SINGLE_PHASE: u16 = 31;
pub const MAXIMUM_DEMAND: u16 = 34;
// Utility classes of this library (200 and up)
pub const CUSTOM_QOS: u16 = 200;
pub const CUSTOM_SENSOR: u16 = 201;
pub const CUSTOM_SENSOR_SETUP: u16 = 202;
pub const CUSTOM_ACTUATOR: u16 = 203;
pub const CUSTOM_ACTUATOR_SETUP: u16 = 204;
pub const CUSTOM_GAS_FLOW: u16 = 205;
pub const CUSTOM_GAS_VALVE: u16 = 206;
pub const CUSTOM_WATER_FLOW: u16 = 207;
pub const CUSTOM_HEAT_COST_ALLOCATOR: u16 = 208;
pub const CUSTOM_HAN_SETUP: u16 = 209;
pub const CUSTOM_ACTIVE_POWER_IMPORT: u16 = 210;
pub const CUSTOM_SINGLE_PHASE_IMPORT: u16 = 211;
pub const CUSTOM_SINGLE_PHASE_EXPORT: u16 = 212;
pub const CUSTOM_ROUTE_SETUP: u16 = 213;
pub const CUSTOM_TRANSPORT: u16 = 214;
pub const CUSTOM_MULTIPLIER: u16 = 215;
pub const CUSTOM_MULTIPLIER_SETUP: u16 = 216;
pub const CUSTOM_UTILITY_SUB_SCHEDULE: u16 = 217;
pub const CUSTOM_CLUSTER: u16 = 218;
pub const CUSTOM_ROUTE: u16 = 219;

} // verus!
