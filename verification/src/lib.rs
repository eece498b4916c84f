//! Ingest adapter for ChirpStack uplink events.
//!
//! The adapter turns one `(topic, payload)` pair from the messaging layer
//! into a canonical uplink frame: it decides from the topic alone whether the
//! message is an uplink event, guards against oversized payloads, decodes the
//! vendor JSON, and maps the vendor fields onto the canonical model with an
//! explicit default-substitution policy.

use vstd::prelude::*;

mod decode;
mod doc;
mod error;
mod json;
mod laws;
mod map;
mod model;
mod parser;
mod time;
mod topic;
mod wire;

pub use decode::{
    decode_rx_info, decode_wire, decodes_to, sd_bool, sd_device_info, sd_location, sd_opt_i16,
    sd_opt_location, sd_opt_numtext, sd_opt_str, sd_opt_u32, sd_opt_u64, sd_opt_u8, sd_req_str,
    sd_rx, sd_rx_field, sd_rx_seq, sd_tx, sd_u8_of, sd_u8_strict, spec_decode_ok,
};
pub use doc::{
    doc_lookup, doc_member, doc_member_raw, member, member_raw, take_member, Json, JsonNumber,
};
pub use error::ParseError;
pub use json::{json_doc, json_parses};
pub use laws::{
    lemma_location_policy, lemma_minimal_wire_defaults, lemma_populated_wire_passes_through,
    lemma_rx_record_defaults,
};
pub use map::{
    frame_from_wire, map_rx_info, rx_maps_to, spec_application_id, spec_location,
    spec_received_at, wire_maps_to, DEFAULT_LORA_BANDWIDTH,
};
pub use model::{
    is_hex_char, is_valid_dev_eui, ApplicationId, DataRate, DevEui, Frame, GatewayEui,
    GatewayLocation, GatewayRxInfo, UplinkFrame,
};
pub use parser::ChirpStackParser;
pub use time::rfc3339_micros;
pub use topic::{
    is_segment_span, lemma_segment_span_unique, nth_segment, slash_count, topic_has_uplink_marker,
    topic_is_uplink, uplink_marker,
};
pub use wire::{WireDeviceInfo, WireLocation, WireRxInfo, WireTxInfo, WireUplink};

verus! {

/// Upper bound, in bytes, on any payload this adapter will attempt to decode.
pub const MAX_MQTT_PAYLOAD_SIZE: usize = 262144;

} // verus!
