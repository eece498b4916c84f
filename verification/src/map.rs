//! Canonicalization: the field-by-field mapping from the wire schema to the
//! canonical frame, with its default-substitution policy.

use vstd::prelude::*;

use crate::error::ParseError;
use crate::model::{
    is_valid_dev_eui, ApplicationId, DataRate, DevEui, GatewayEui, GatewayLocation, GatewayRxInfo,
    UplinkFrame,
};
use crate::time::{parse_rfc3339_micros, rfc3339_micros};
use crate::wire::{WireDeviceInfo, WireLocation, WireRxInfo, WireUplink};

verus! {

/// The vendor's default LoRa bandwidth, in Hz.
pub const DEFAULT_LORA_BANDWIDTH: u32 = 125000;

/// Application identifier policy: the human-readable name when present,
/// else the raw identifier. (The identifier is a required wire field, so no
/// further fallback is needed here.)
pub open spec fn spec_application_id(di: WireDeviceInfo) -> Seq<char> {
    match di.application_name {
        Some(n) => n@,
        None => di.application_id@,
    }
}

/// Timestamp policy: a present, well-formed RFC 3339 time is taken as is;
/// anything else falls back to `now` (microseconds since the Unix epoch).
pub open spec fn spec_received_at(time: Option<String>, now: i64) -> i64 {
    match time {
        Some(t) => match rfc3339_micros(t@) {
            Some(m) => m,
            None => now,
        },
        None => now,
    }
}

/// Location policy: a location is emitted only when both coordinates are
/// known; altitude stays optional.
pub open spec fn spec_location(loc: Option<WireLocation>) -> Option<GatewayLocation> {
    match loc {
        Some(l) => match l.latitude {
            Some(lat) => match l.longitude {
                Some(lng) => Some(
                    GatewayLocation { latitude: lat, longitude: lng, altitude: l.altitude },
                ),
                None => None,
            },
            None => None,
        },
        None => None,
    }
}

/// How one receive-metadata record maps to a canonical reception record.
pub open spec fn rx_maps_to(w: WireRxInfo, g: GatewayRxInfo) -> bool {
    &&& g.gateway_id@ == match w.gateway_id {
        Some(id) => id@,
        None => "unknown"@,
    }
    &&& g.rssi == match w.rssi {
        Some(r) => r,
        None => 0i16,
    }
    &&& g.snr@ == match w.snr {
        Some(s) => s@,
        None => "0"@,
    }
    &&& g.channel == match w.channel {
        Some(c) => c,
        None => 0u8,
    }
    &&& g.rf_chain == match w.rf_chain {
        Some(c) => c,
        None => 0u8,
    }
    &&& g.location == spec_location(w.location)
}

/// How a whole decoded uplink maps to a canonical frame, given the fallback
/// instant `now`.
pub open spec fn wire_maps_to(w: WireUplink, now: i64, f: UplinkFrame) -> bool {
    &&& f.dev_eui@ == w.device_info.dev_eui@
    &&& f.application_id@ == spec_application_id(w.device_info)
    &&& f.device_name == w.device_info.device_name
    &&& f.received_at == spec_received_at(w.time, now)
    &&& f.f_port == match w.f_port {
        Some(p) => p,
        None => 0u8,
    }
    &&& f.f_cnt == match w.f_cnt {
        Some(c) => c,
        None => 0u32,
    }
    &&& f.confirmed == (w.confirmed == Some(true))
    &&& f.adr == (w.adr == Some(true))
    &&& f.dr.bandwidth == DEFAULT_LORA_BANDWIDTH
    &&& f.dr.spreading_factor == match w.dr {
        Some(d) => d,
        None => 0u8,
    }
    &&& f.frequency == match w.tx_info {
        Some(tx) => match tx.frequency {
            Some(q) => q,
            None => 0u64,
        },
        None => 0u64,
    }
    &&& f.rx_info@.len() == w.rx_info@.len()
    &&& forall|i: int|
        0 <= i < w.rx_info@.len() ==> rx_maps_to(w.rx_info@[i], #[trigger] f.rx_info@[i])
    &&& f.decoded_payload == w.object
    &&& f.raw_payload == w.data
}

/// Maps one receive-metadata record, substituting the documented defaults:
/// gateway identifier `"unknown"`, RSSI 0, SNR 0, channel and RF chain 0.
pub fn map_rx_info(w: WireRxInfo) -> (g: GatewayRxInfo)
    ensures
        rx_maps_to(w, g),
{
    let gateway_id = match w.gateway_id {
        Some(id) => GatewayEui::new(id),
        None => GatewayEui::new("unknown".to_owned()),
    };
    let rssi = match w.rssi {
        Some(r) => r,
        None => 0i16,
    };
    let snr = match w.snr {
        Some(s) => s,
        None => "0".to_owned(),
    };
    let channel = match w.channel {
        Some(c) => c,
        None => 0u8,
    };
    let rf_chain = match w.rf_chain {
        Some(c) => c,
        None => 0u8,
    };
    let location = match w.location {
        Some(l) => match (l.latitude, l.longitude) {
            (Some(lat), Some(lng)) => Some(
                GatewayLocation { latitude: lat, longitude: lng, altitude: l.altitude },
            ),
            _ => None,
        },
        None => None,
    };
    GatewayRxInfo { gateway_id, rssi, snr, channel, rf_chain, location }
}

/// Canonicalizes a decoded uplink. Total but for identity validation: the
/// result is `Ok` exactly when the wire device EUI satisfies the canonical
/// format, and the only error is `InvalidIdentity` with that identifier.
pub fn frame_from_wire(w: WireUplink, now: i64) -> (r: Result<UplinkFrame, ParseError>)
    ensures
        r is Ok <==> is_valid_dev_eui(w.device_info.dev_eui@),
        r matches Ok(f) ==> wire_maps_to(w, now, f),
        r matches Err(e) ==> e matches ParseError::InvalidIdentity(s) && s@
            == w.device_info.dev_eui@,
{
    let ghost gw = w;
    let WireUplink {
        deduplication_id: _,
        time,
        device_info,
        dev_addr: _,
        f_port,
        f_cnt,
        confirmed,
        adr,
        dr,
        mut rx_info,
        tx_info,
        object,
        data,
    } = w;
    let WireDeviceInfo {
        tenant_id: _,
        tenant_name: _,
        dev_eui,
        device_name,
        application_id,
        application_name,
        device_profile_id: _,
        device_profile_name: _,
        device_class_enabled: _,
    } = device_info;

    let dev_eui = match DevEui::new(dev_eui) {
        Ok(d) => d,
        Err(e) => return Err(e),
    };
    let application_id = match application_name {
        Some(n) => ApplicationId::new(n),
        None => ApplicationId::new(application_id),
    };
    let received_at = match &time {
        Some(t) => match parse_rfc3339_micros(t.as_str()) {
            Some(m) => m,
            None => now,
        },
        None => now,
    };
    let mut gateways: Vec<GatewayRxInfo> = Vec::new();
    while rx_info.len() > 0
        invariant
            gateways@.len() + rx_info@.len() == gw.rx_info@.len(),
            rx_info@ == gw.rx_info@.subrange(gateways@.len() as int, gw.rx_info@.len() as int),
            forall|i: int|
                0 <= i < gateways@.len() ==> rx_maps_to(
                    gw.rx_info@[i],
                    #[trigger] gateways@[i],
                ),
        decreases rx_info@.len(),
    {
        let rec = rx_info.remove(0);
        proof {
            assert(rec == gw.rx_info@[gateways@.len() as int]);
            assert(rx_info@ =~= gw.rx_info@.subrange(
                gateways@.len() as int + 1,
                gw.rx_info@.len() as int,
            ));
        }
        let g = map_rx_info(rec);
        gateways.push(g);
    }
    let frequency = match tx_info {
        Some(tx) => match tx.frequency {
            Some(q) => q,
            None => 0u64,
        },
        None => 0u64,
    };
    Ok(
        UplinkFrame {
            dev_eui,
            application_id,
            device_name,
            received_at,
            f_port: match f_port {
                Some(p) => p,
                None => 0u8,
            },
            f_cnt: match f_cnt {
                Some(c) => c,
                None => 0u32,
            },
            confirmed: match confirmed {
                Some(b) => b,
                None => false,
            },
            adr: match adr {
                Some(b) => b,
                None => false,
            },
            dr: DataRate::new_lora(DEFAULT_LORA_BANDWIDTH, match dr {
                Some(d) => d,
                None => 0u8,
            }),
            frequency,
            rx_info: gateways,
            decoded_payload: object,
            raw_payload: data,
        },
    )
}

} // verus!
