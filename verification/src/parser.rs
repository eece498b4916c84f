//! The ChirpStack uplink adapter: relevance filter, size guard, decode and
//! canonicalization, in that order.

use vstd::prelude::*;

use crate::decode::{decode_wire, decodes_to, sd_device_info, spec_decode_ok};
use crate::doc::Json;
use crate::error::ParseError;
use crate::json::{json_doc, json_error_text, json_parses, parse_json};
use crate::map::{frame_from_wire, wire_maps_to, DEFAULT_LORA_BANDWIDTH};
use crate::model::{is_valid_dev_eui, Frame, UplinkFrame};
use crate::time::now_micros;
use crate::wire::WireUplink;
use crate::topic::{
    is_segment_span, nth_segment, slash_count, topic_has_uplink_marker, topic_is_uplink,
};
use crate::MAX_MQTT_PAYLOAD_SIZE;

verus! {

/// Whether the document yields this frame: it decodes to some wire value
/// (unique, since `decodes_to` fixes every wire field) which the mapping
/// policy carries to the frame, with `now` as the timestamp fallback.
pub open spec fn doc_yields_frame(d: Json, now: i64, f: UplinkFrame) -> bool {
    exists|w: WireUplink| #[trigger] decodes_to(d, w) && wire_maps_to(w, now, f)
}

/// The ChirpStack vendor adapter. Stateless; one value serves any number of
/// concurrent calls, each call a pure transformation of one message.
pub struct ChirpStackParser;

impl ChirpStackParser {
    pub fn new() -> (r: ChirpStackParser)
        ensures
            (r == (ChirpStackParser {  })),
    {
        ChirpStackParser
    }

    /// Parses one message.
    ///
    /// `Ok(None)` means "not this vendor/event type": it is returned exactly
    /// on topics without the uplink-event marker, so a dispatcher can try
    /// other adapters without a false failure. On a relevant topic the
    /// payload is first held to the size limit, then decoded and
    /// canonicalized; every failure comes back as a typed error, never a
    /// panic.
    pub fn parse_message(&self, topic: &str, payload: &[u8]) -> (r: Result<
        Option<Frame>,
        ParseError,
    >)
        ensures
            !topic_is_uplink(topic@) ==> (r matches Ok(f) && f is None),
            topic_is_uplink(topic@) && payload@.len() > MAX_MQTT_PAYLOAD_SIZE ==> (r matches Err(
                ParseError::OversizePayload { size, limit },
            ) && size == payload@.len() && limit == MAX_MQTT_PAYLOAD_SIZE),
            r matches Err(ParseError::OversizePayload { size, limit }) ==> (topic_is_uplink(topic@)
                && size == payload@.len() && payload@.len() > MAX_MQTT_PAYLOAD_SIZE && limit
                == MAX_MQTT_PAYLOAD_SIZE),
            topic_is_uplink(topic@) && payload@.len() <= MAX_MQTT_PAYLOAD_SIZE ==> !(r matches Ok(
                f,
            ) && f is None),
            topic_is_uplink(topic@) && payload@.len() <= MAX_MQTT_PAYLOAD_SIZE && !json_parses(
                payload@,
            ) ==> (r matches Err(ParseError::MalformedJson(_))),
            r matches Err(ParseError::MalformedJson(_)) ==> (topic_is_uplink(topic@)
                && payload@.len() <= MAX_MQTT_PAYLOAD_SIZE),
            r matches Err(ParseError::InvalidIdentity(_)) ==> (topic_is_uplink(topic@)
                && payload@.len() <= MAX_MQTT_PAYLOAD_SIZE && json_parses(payload@)),
            r matches Ok(Some(Frame::Uplink(u))) ==> (is_valid_dev_eui(u.dev_eui@)
                && u.dr.bandwidth == DEFAULT_LORA_BANDWIDTH),
            topic_is_uplink(topic@) && payload@.len() <= MAX_MQTT_PAYLOAD_SIZE ==> match json_doc(
                payload@,
            ) {
                None => (r matches Err(ParseError::MalformedJson(_))),
                Some(d) => if !spec_decode_ok(d) {
                    (r matches Err(ParseError::MalformedJson(_)))
                } else if is_valid_dev_eui(sd_device_info(d)->Ok_0.dev_eui@) {
                    (r matches Ok(Some(Frame::Uplink(f))) && exists|n: i64|
                        #[trigger] doc_yields_frame(d, n, f))
                } else {
                    (r matches Err(ParseError::InvalidIdentity(_)))
                },
            },
    {
        if !topic_has_uplink_marker(topic) {
            return Ok(None);
        }
        if payload.len() > MAX_MQTT_PAYLOAD_SIZE {
            return Err(
                ParseError::OversizePayload { size: payload.len(), limit: MAX_MQTT_PAYLOAD_SIZE },
            );
        }
        let doc = match parse_json(payload) {
            Ok(d) => d,
            Err(e) => return Err(ParseError::MalformedJson(json_error_text(&e))),
        };
        let ghost gdoc = doc;
        let wire = match decode_wire(doc) {
            Ok(w) => w,
            Err(e) => return Err(e),
        };
        let now = now_micros();
        match frame_from_wire(wire, now) {
            Ok(frame) => {
                proof {
                    assert(decodes_to(gdoc, wire) && wire_maps_to(wire, now, frame));
                    assert(doc_yields_frame(gdoc, now, frame));
                }
                Ok(Some(Frame::Uplink(frame)))
            },
            Err(e) => Err(e),
        }
    }

    /// Topic-only device-identifier lookup: the fourth `/`-separated topic
    /// segment, by the vendor convention
    /// `application/{app}/device/{dev_eui}/event/up`. Never fails; a topic
    /// with fewer than four segments (fewer than three slashes) yields
    /// `None`.
    pub fn extract_dev_eui(&self, topic: &str) -> (r: Option<String>)
        ensures
            r is Some <==> slash_count(topic@) >= 3,
            r matches Some(s) ==> exists|a: int, b: int|
                is_segment_span(topic@, 3, a, b) && s@ == topic@.subrange(a, b),
    {
        nth_segment(topic, 3)
    }
}

impl Default for ChirpStackParser {
    fn default() -> (r: Self)
        ensures
            (r == (ChirpStackParser {  })),
    {
        ChirpStackParser::new()
    }
}

} // verus!
