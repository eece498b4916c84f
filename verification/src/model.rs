//! Canonical domain model: the vendor-agnostic uplink frame and its parts.
//!
//! Signal metrics that arrive as JSON numbers with a fractional part (SNR,
//! coordinates) are carried as their decimal text so that the model stays in
//! exact arithmetic; timestamps are carried as microseconds since the Unix
//! epoch.

use vstd::prelude::*;

use crate::doc::Json;
use crate::error::ParseError;

verus! {

pub open spec fn is_hex_char(c: char) -> bool {
    ('0' <= c && c <= '9') || ('a' <= c && c <= 'f') || ('A' <= c && c <= 'F')
}

/// The canonical EUI format: exactly 16 hexadecimal characters.
pub open spec fn is_valid_dev_eui(s: Seq<char>) -> bool {
    s.len() == 16 && forall|i: int| 0 <= i < s.len() ==> is_hex_char(#[trigger] s[i])
}

/// A device EUI that has passed canonical-format validation.
pub struct DevEui {
    eui: String,
}

impl View for DevEui {
    type V = Seq<char>;

    closed spec fn view(&self) -> Seq<char> {
        self.eui@
    }
}

impl DevEui {
    /// Every value of this type satisfies the canonical EUI format.
    pub open spec fn wf(&self) -> bool {
        is_valid_dev_eui(self@)
    }

    /// Validates `eui`; an identifier of the wrong length or with a
    /// non-hexadecimal character is rejected, never silently defaulted.
    pub fn new(eui: String) -> (r: Result<DevEui, ParseError>)
        ensures
            r is Ok <==> is_valid_dev_eui(eui@),
            r matches Ok(d) ==> d@ == eui@ && d.wf(),
            r matches Err(e) ==> e matches ParseError::InvalidIdentity(s) && s@ == eui@,
    {
        let n = eui.as_str().unicode_len();
        if n != 16 {
            return Err(ParseError::InvalidIdentity(eui));
        }
        let mut i: usize = 0;
        while i < 16
            invariant
                eui@.len() == 16,
                i <= 16,
                forall|j: int| 0 <= j < i ==> is_hex_char(#[trigger] eui@[j]),
            decreases 16 - i,
        {
            let c = eui.as_str().get_char(i);
            let hex = ('0' <= c && c <= '9') || ('a' <= c && c <= 'f') || ('A' <= c && c <= 'F');
            if !hex {
                return Err(ParseError::InvalidIdentity(eui));
            }
            i = i + 1;
        }
        Ok(DevEui { eui })
    }

    pub fn as_str(&self) -> (r: &str)
        ensures
            r@ == self@,
    {
        self.eui.as_str()
    }
}

/// The application an uplink belongs to, as a plain identifier string.
pub struct ApplicationId {
    id: String,
}

impl View for ApplicationId {
    type V = Seq<char>;

    closed spec fn view(&self) -> Seq<char> {
        self.id@
    }
}

impl ApplicationId {
    pub fn new(id: String) -> (r: ApplicationId)
        ensures
            r@ == id@,
    {
        ApplicationId { id }
    }

    pub fn as_str(&self) -> (r: &str)
        ensures
            r@ == self@,
    {
        self.id.as_str()
    }
}

/// A gateway identifier; unvalidated, since reception metadata may carry the
/// sentinel `"unknown"` when the gateway did not report one.
pub struct GatewayEui {
    eui: String,
}

impl View for GatewayEui {
    type V = Seq<char>;

    closed spec fn view(&self) -> Seq<char> {
        self.eui@
    }
}

impl GatewayEui {
    pub fn new(eui: String) -> (r: GatewayEui)
        ensures
            r@ == eui@,
    {
        GatewayEui { eui }
    }

    pub fn as_str(&self) -> (r: &str)
        ensures
            r@ == self@,
    {
        self.eui.as_str()
    }
}

/// Radio modulation descriptor: bandwidth in Hz plus spreading-factor index.
pub struct DataRate {
    pub bandwidth: u32,
    pub spreading_factor: u8,
}

impl DataRate {
    pub fn new_lora(bandwidth: u32, spreading_factor: u8) -> (r: DataRate)
        ensures
            r.bandwidth == bandwidth,
            r.spreading_factor == spreading_factor,
    {
        DataRate { bandwidth, spreading_factor }
    }
}

/// Where a gateway stands; coordinates and altitude as decimal text.
pub struct GatewayLocation {
    pub latitude: String,
    pub longitude: String,
    pub altitude: Option<String>,
}

/// One gateway's observed reception metrics for a single uplink.
pub struct GatewayRxInfo {
    pub gateway_id: GatewayEui,
    pub rssi: i16,
    /// Signal-to-noise ratio as decimal text, e.g. `"10.5"`; `"0"` when the
    /// gateway did not report one.
    pub snr: String,
    pub channel: u8,
    pub rf_chain: u8,
    pub location: Option<GatewayLocation>,
}

/// A canonical record of one sensor-to-network message plus its radio
/// reception context.
pub struct UplinkFrame {
    pub dev_eui: DevEui,
    pub application_id: ApplicationId,
    pub device_name: Option<String>,
    /// Microseconds since the Unix epoch; always populated.
    pub received_at: i64,
    pub f_port: u8,
    pub f_cnt: u32,
    pub confirmed: bool,
    pub adr: bool,
    pub dr: DataRate,
    pub frequency: u64,
    pub rx_info: Vec<GatewayRxInfo>,
    /// Pass-through of the vendor's decoded-payload object.
    pub decoded_payload: Option<Json>,
    pub raw_payload: Option<String>,
}

/// A canonical frame; other frame kinds (join, downlink, status) come from
/// other adapters, so matches on this enum should keep a wildcard arm.
#[non_exhaustive]
pub enum Frame {
    Uplink(UplinkFrame),
}

} // verus!
