//! The vendor wire schema, decoded but not yet canonicalized.
//!
//! Every optional field stays an `Option` here: default substitution is the
//! mapper's job, so that the whole policy stands in one place. Numbers with
//! a fractional part (SNR, coordinates) are carried as their decimal text.

use vstd::prelude::*;

use crate::doc::Json;

verus! {

/// The required device-identity sub-object.
pub struct WireDeviceInfo {
    pub tenant_id: Option<String>,
    pub tenant_name: Option<String>,
    pub dev_eui: String,
    pub device_name: Option<String>,
    pub application_id: String,
    pub application_name: Option<String>,
    pub device_profile_id: Option<String>,
    pub device_profile_name: Option<String>,
    pub device_class_enabled: Option<String>,
}

/// A gateway position as reported on a reception record.
pub struct WireLocation {
    pub latitude: Option<String>,
    pub longitude: Option<String>,
    pub altitude: Option<String>,
}

/// One receive-metadata record.
pub struct WireRxInfo {
    pub gateway_id: Option<String>,
    pub rssi: Option<i16>,
    pub snr: Option<String>,
    pub channel: Option<u8>,
    pub rf_chain: Option<u8>,
    pub location: Option<WireLocation>,
}

/// The transmit-metadata record.
pub struct WireTxInfo {
    pub frequency: Option<u64>,
}

/// A decoded uplink event, field for field as the vendor sends it.
pub struct WireUplink {
    pub deduplication_id: Option<String>,
    pub time: Option<String>,
    pub device_info: WireDeviceInfo,
    pub dev_addr: Option<String>,
    pub f_port: Option<u8>,
    pub f_cnt: Option<u32>,
    pub confirmed: Option<bool>,
    pub adr: Option<bool>,
    pub dr: Option<u8>,
    pub rx_info: Vec<WireRxInfo>,
    pub tx_info: Option<WireTxInfo>,
    pub object: Option<Json>,
    pub data: Option<String>,
}

} // verus!
