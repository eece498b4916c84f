//! The mapping policy's laws, stated over the same spec functions that the
//! mapper's contracts use.

use vstd::prelude::*;

use crate::map::{rx_maps_to, spec_location, wire_maps_to, DEFAULT_LORA_BANDWIDTH};
use crate::model::{GatewayRxInfo, UplinkFrame};
use crate::time::rfc3339_micros;
use crate::wire::{WireLocation, WireRxInfo, WireUplink};

verus! {

/// Pass-through law: a wire payload with every optional field populated
/// (and a well-formed timestamp) maps to a frame whose fields equal the
/// wire fields, with the application name preferred over the raw
/// identifier and nothing defaulted.
pub proof fn lemma_populated_wire_passes_through(w: WireUplink, now: i64, f: UplinkFrame)
    requires
        wire_maps_to(w, now, f),
        w.time matches Some(t) && rfc3339_micros(t@) is Some,
        w.device_info.application_name is Some,
        w.device_info.device_name is Some,
        w.f_port is Some,
        w.f_cnt is Some,
        w.confirmed is Some,
        w.adr is Some,
        w.dr is Some,
        w.tx_info matches Some(tx) && tx.frequency is Some,
        w.object is Some,
        w.data is Some,
    ensures
        f.dev_eui@ == w.device_info.dev_eui@,
        f.application_id@ == w.device_info.application_name->0@,
        f.device_name == w.device_info.device_name,
        f.received_at == rfc3339_micros(w.time->0@)->0,
        f.f_port == w.f_port->0,
        f.f_cnt == w.f_cnt->0,
        f.confirmed == w.confirmed->0,
        f.adr == w.adr->0,
        f.dr.bandwidth == DEFAULT_LORA_BANDWIDTH,
        f.dr.spreading_factor == w.dr->0,
        f.frequency == w.tx_info->0.frequency->0,
        f.rx_info@.len() == w.rx_info@.len(),
        forall|i: int|
            0 <= i < w.rx_info@.len() ==> rx_maps_to(w.rx_info@[i], #[trigger] f.rx_info@[i]),
        f.decoded_payload == w.object,
        f.raw_payload == w.data,
{
}

/// Default-substitution law: a minimal wire payload, with no optional field
/// present, never needs more than the documented defaults: port, counter,
/// data-rate index and frequency 0, both flags false, the raw application
/// identifier, and the fallback instant as the timestamp.
pub proof fn lemma_minimal_wire_defaults(w: WireUplink, now: i64, f: UplinkFrame)
    requires
        wire_maps_to(w, now, f),
        w.time is None,
        w.device_info.application_name is None,
        w.device_info.device_name is None,
        w.f_port is None,
        w.f_cnt is None,
        w.confirmed is None,
        w.adr is None,
        w.dr is None,
        w.rx_info@.len() == 0,
        w.tx_info is None,
        w.object is None,
        w.data is None,
    ensures
        f.dev_eui@ == w.device_info.dev_eui@,
        f.application_id@ == w.device_info.application_id@,
        f.device_name is None,
        f.received_at == now,
        f.f_port == 0,
        f.f_cnt == 0,
        !f.confirmed,
        !f.adr,
        f.dr.bandwidth == DEFAULT_LORA_BANDWIDTH,
        f.dr.spreading_factor == 0,
        f.frequency == 0,
        f.rx_info@.len() == 0,
        f.decoded_payload is None,
        f.raw_payload is None,
{
}

/// Reception-record defaults: a record with no optional field present maps
/// to the sentinel gateway `"unknown"`, RSSI 0, SNR 0 and no location.
pub proof fn lemma_rx_record_defaults(w: WireRxInfo, g: GatewayRxInfo)
    requires
        rx_maps_to(w, g),
        w.gateway_id is None,
        w.rssi is None,
        w.snr is None,
        w.channel is None,
        w.rf_chain is None,
        w.location is None,
    ensures
        g.gateway_id@ == "unknown"@,
        g.rssi == 0,
        g.snr@ == "0"@,
        g.channel == 0,
        g.rf_chain == 0,
        g.location is None,
{
}

/// Location law: a reception record yields a location exactly when both
/// coordinates are known; the altitude passes through and may stay absent.
pub proof fn lemma_location_policy(l: WireLocation)
    ensures
        (l.latitude is None || l.longitude is None) ==> spec_location(Some(l)) is None,
        l.latitude is Some && l.longitude is Some ==> (spec_location(Some(l)) matches Some(g)
            && g.latitude == l.latitude->0 && g.longitude == l.longitude->0 && g.altitude
            == l.altitude),
{
}

} // verus!
