//! Decoding the JSON document into the wire schema, with the whole decode
//! policy stated as spec functions over the document tree.
//!
//! Policy, mirroring the wire schema's optionality: a field that is absent
//! stays `None` and never fails; an explicit JSON `null` counts as absent
//! on optional fields, but is a wrong type on `confirmed`, `adr`,
//! `channel`, `rfChain` and `rxInfo`, whose wire slots are not optional; a
//! present field of another JSON type, or a number outside the range of its
//! field, fails the whole decode; only the device-identity object with its
//! EUI and application identifier is required at all. Unknown extra members
//! are ignored.

use vstd::prelude::*;

use crate::doc::{doc_member, doc_member_raw, member, member_raw, take_member, Json};
use crate::error::ParseError;
use crate::wire::{WireDeviceInfo, WireLocation, WireRxInfo, WireTxInfo, WireUplink};

verus! {

pub open spec fn sd_opt_str(d: Json, key: Seq<char>) -> Result<Option<String>, ()> {
    match doc_member(d, key) {
        None => Ok(None),
        Some(Json::Text(s)) => Ok(Some(s)),
        Some(_) => Err(()),
    }
}

pub open spec fn sd_req_str(d: Json, key: Seq<char>) -> Result<String, ()> {
    match doc_member(d, key) {
        Some(Json::Text(s)) => Ok(s),
        _ => Err(()),
    }
}

/// Flag fields are not optional in the wire schema, so an explicit `null`
/// is a wrong type here, not an absence.
pub open spec fn sd_bool(d: Json, key: Seq<char>) -> Result<Option<bool>, ()> {
    match doc_member_raw(d, key) {
        None => Ok(None),
        Some(Json::Bool(b)) => Ok(Some(b)),
        Some(_) => Err(()),
    }
}

pub open spec fn sd_opt_u64(d: Json, key: Seq<char>) -> Result<Option<u64>, ()> {
    match doc_member(d, key) {
        None => Ok(None),
        Some(Json::Number(n)) => match n.as_u64 {
            Some(v) => Ok(Some(v)),
            None => Err(()),
        },
        Some(_) => Err(()),
    }
}

pub open spec fn sd_u8_of(m: Option<Json>) -> Result<Option<u8>, ()> {
    match m {
        None => Ok(None),
        Some(Json::Number(n)) => match n.as_u64 {
            Some(v) => if v <= u8::MAX as u64 {
                Ok(Some(v as u8))
            } else {
                Err(())
            },
            None => Err(()),
        },
        Some(_) => Err(()),
    }
}

pub open spec fn sd_opt_u8(d: Json, key: Seq<char>) -> Result<Option<u8>, ()> {
    sd_u8_of(doc_member(d, key))
}

/// As `sd_opt_u8`, but for the non-optional wire slots (`channel`,
/// `rfChain`), where an explicit `null` is a wrong type.
pub open spec fn sd_u8_strict(d: Json, key: Seq<char>) -> Result<Option<u8>, ()> {
    sd_u8_of(doc_member_raw(d, key))
}

pub open spec fn sd_opt_u32(d: Json, key: Seq<char>) -> Result<Option<u32>, ()> {
    match doc_member(d, key) {
        None => Ok(None),
        Some(Json::Number(n)) => match n.as_u64 {
            Some(v) => if v <= u32::MAX as u64 {
                Ok(Some(v as u32))
            } else {
                Err(())
            },
            None => Err(()),
        },
        Some(_) => Err(()),
    }
}

pub open spec fn sd_opt_i16(d: Json, key: Seq<char>) -> Result<Option<i16>, ()> {
    match doc_member(d, key) {
        None => Ok(None),
        Some(Json::Number(n)) => match n.as_i64 {
            Some(v) => if i16::MIN as i64 <= v && v <= i16::MAX as i64 {
                Ok(Some(v as i16))
            } else {
                Err(())
            },
            None => Err(()),
        },
        Some(_) => Err(()),
    }
}

/// A JSON number carried as its decimal text, so that fractional values
/// (SNR, coordinates) stay exact.
pub open spec fn sd_opt_numtext(d: Json, key: Seq<char>) -> Result<Option<String>, ()> {
    match doc_member(d, key) {
        None => Ok(None),
        Some(Json::Number(n)) => Ok(Some(n.text)),
        Some(_) => Err(()),
    }
}

pub open spec fn sd_location(d: Json) -> Result<WireLocation, ()> {
    if !(d is Object) {
        Err(())
    } else if sd_opt_numtext(d, "latitude"@) is Err || sd_opt_numtext(d, "longitude"@) is Err
        || sd_opt_numtext(d, "altitude"@) is Err {
        Err(())
    } else {
        Ok(
            WireLocation {
                latitude: sd_opt_numtext(d, "latitude"@)->Ok_0,
                longitude: sd_opt_numtext(d, "longitude"@)->Ok_0,
                altitude: sd_opt_numtext(d, "altitude"@)->Ok_0,
            },
        )
    }
}

pub open spec fn sd_opt_location(d: Json) -> Result<Option<WireLocation>, ()> {
    match doc_member(d, "location"@) {
        None => Ok(None),
        Some(l) => match sd_location(l) {
            Ok(x) => Ok(Some(x)),
            Err(e) => Err(e),
        },
    }
}

/// How one receive-metadata record reads from the document.
pub open spec fn sd_rx(d: Json) -> Result<WireRxInfo, ()> {
    if !(d is Object) {
        Err(())
    } else if sd_opt_str(d, "gatewayId"@) is Err || sd_opt_i16(d, "rssi"@) is Err || sd_opt_numtext(
        d,
        "snr"@,
    ) is Err || sd_u8_strict(d, "channel"@) is Err || sd_u8_strict(d, "rfChain"@) is Err
        || sd_opt_location(d) is Err {
        Err(())
    } else {
        Ok(
            WireRxInfo {
                gateway_id: sd_opt_str(d, "gatewayId"@)->Ok_0,
                rssi: sd_opt_i16(d, "rssi"@)->Ok_0,
                snr: sd_opt_numtext(d, "snr"@)->Ok_0,
                channel: sd_u8_strict(d, "channel"@)->Ok_0,
                rf_chain: sd_u8_strict(d, "rfChain"@)->Ok_0,
                location: sd_opt_location(d)->Ok_0,
            },
        )
    }
}

pub open spec fn sd_rx_seq(elems: Seq<Json>) -> Result<Seq<WireRxInfo>, ()>
    decreases elems.len(),
{
    if elems.len() == 0 {
        Ok(Seq::empty())
    } else {
        match sd_rx(elems[0]) {
            Err(e) => Err(e),
            Ok(head) => match sd_rx_seq(elems.drop_first()) {
                Err(e) => Err(e),
                Ok(tail) => Ok(seq![head] + tail),
            },
        }
    }
}

/// The receive-metadata list: absent means no records, an explicit `null`
/// or a non-array is a wrong type.
pub open spec fn sd_rx_field(d: Json) -> Result<Seq<WireRxInfo>, ()> {
    match doc_member_raw(d, "rxInfo"@) {
        None => Ok(Seq::empty()),
        Some(Json::Array(a)) => sd_rx_seq(a@),
        Some(_) => Err(()),
    }
}

/// The required device-identity object.
pub open spec fn sd_device_info(d: Json) -> Result<WireDeviceInfo, ()> {
    match doc_member(d, "deviceInfo"@) {
        None => Err(()),
        Some(di) => if !(di is Object) {
            Err(())
        } else if sd_opt_str(di, "tenantId"@) is Err || sd_opt_str(di, "tenantName"@) is Err
            || sd_req_str(di, "devEui"@) is Err || sd_opt_str(di, "deviceName"@) is Err
            || sd_req_str(di, "applicationId"@) is Err || sd_opt_str(di, "applicationName"@) is Err
            || sd_opt_str(di, "deviceProfileId"@) is Err || sd_opt_str(
            di,
            "deviceProfileName"@,
        ) is Err || sd_opt_str(di, "deviceClassEnabled"@) is Err {
            Err(())
        } else {
            Ok(
                WireDeviceInfo {
                    tenant_id: sd_opt_str(di, "tenantId"@)->Ok_0,
                    tenant_name: sd_opt_str(di, "tenantName"@)->Ok_0,
                    dev_eui: sd_req_str(di, "devEui"@)->Ok_0,
                    device_name: sd_opt_str(di, "deviceName"@)->Ok_0,
                    application_id: sd_req_str(di, "applicationId"@)->Ok_0,
                    application_name: sd_opt_str(di, "applicationName"@)->Ok_0,
                    device_profile_id: sd_opt_str(di, "deviceProfileId"@)->Ok_0,
                    device_profile_name: sd_opt_str(di, "deviceProfileName"@)->Ok_0,
                    device_class_enabled: sd_opt_str(di, "deviceClassEnabled"@)->Ok_0,
                },
            )
        },
    }
}

pub open spec fn sd_tx(d: Json) -> Result<Option<WireTxInfo>, ()> {
    match doc_member(d, "txInfo"@) {
        None => Ok(None),
        Some(t) => if !(t is Object) {
            Err(())
        } else {
            match sd_opt_u64(t, "frequency"@) {
                Ok(q) => Ok(Some(WireTxInfo { frequency: q })),
                Err(e) => Err(e),
            }
        },
    }
}

/// Whether the policy above accepts the whole document.
pub open spec fn spec_decode_ok(d: Json) -> bool {
    &&& sd_device_info(d) is Ok
    &&& sd_opt_str(d, "deduplicationId"@) is Ok
    &&& sd_opt_str(d, "time"@) is Ok
    &&& sd_opt_str(d, "devAddr"@) is Ok
    &&& sd_opt_u8(d, "fPort"@) is Ok
    &&& sd_opt_u32(d, "fCnt"@) is Ok
    &&& sd_bool(d, "confirmed"@) is Ok
    &&& sd_bool(d, "adr"@) is Ok
    &&& sd_opt_u8(d, "dr"@) is Ok
    &&& sd_rx_field(d) is Ok
    &&& sd_tx(d) is Ok
    &&& sd_opt_str(d, "data"@) is Ok
}

/// How an accepted document reads as the wire schema: every wire field is
/// the corresponding member under the policy above, so the wire value is
/// fully determined by the document.
pub open spec fn decodes_to(d: Json, w: WireUplink) -> bool {
    &&& sd_device_info(d) == Ok::<WireDeviceInfo, ()>(w.device_info)
    &&& sd_opt_str(d, "deduplicationId"@) == Ok::<Option<String>, ()>(w.deduplication_id)
    &&& sd_opt_str(d, "time"@) == Ok::<Option<String>, ()>(w.time)
    &&& sd_opt_str(d, "devAddr"@) == Ok::<Option<String>, ()>(w.dev_addr)
    &&& sd_opt_u8(d, "fPort"@) == Ok::<Option<u8>, ()>(w.f_port)
    &&& sd_opt_u32(d, "fCnt"@) == Ok::<Option<u32>, ()>(w.f_cnt)
    &&& sd_bool(d, "confirmed"@) == Ok::<Option<bool>, ()>(w.confirmed)
    &&& sd_bool(d, "adr"@) == Ok::<Option<bool>, ()>(w.adr)
    &&& sd_opt_u8(d, "dr"@) == Ok::<Option<u8>, ()>(w.dr)
    &&& sd_rx_field(d) == Ok::<Seq<WireRxInfo>, ()>(w.rx_info@)
    &&& sd_tx(d) == Ok::<Option<WireTxInfo>, ()>(w.tx_info)
    &&& w.object == doc_member(d, "object"@)
    &&& sd_opt_str(d, "data"@) == Ok::<Option<String>, ()>(w.data)
}

/// The decode error for a field that is present with an unexpected type.
fn wrong_type(key: &str) -> (e: ParseError)
    ensures
        e matches ParseError::MalformedJson(_),
{
    ParseError::MalformedJson(String::from_str("unexpected type for field ").concat(key))
}

/// The decode error for a required field that is missing.
fn missing(key: &str) -> (e: ParseError)
    ensures
        e matches ParseError::MalformedJson(_),
{
    ParseError::MalformedJson(String::from_str("missing required field ").concat(key))
}

fn opt_str(d: &Json, key: &str) -> (r: Result<Option<String>, ParseError>)
    ensures
        match sd_opt_str(*d, key@) {
            Ok(v) => (r matches Ok(x) && x == v),
            Err(_) => (r matches Err(ParseError::MalformedJson(_))),
        },
{
    match member(d, key) {
        None => Ok(None),
        Some(p) => match p {
            Json::Text(s) => Ok(Some(s.clone())),
            _ => Err(wrong_type(key)),
        },
    }
}

fn req_str(d: &Json, key: &str) -> (r: Result<String, ParseError>)
    ensures
        match sd_req_str(*d, key@) {
            Ok(v) => (r matches Ok(x) && x == v),
            Err(_) => (r matches Err(ParseError::MalformedJson(_))),
        },
{
    match member(d, key) {
        None => Err(missing(key)),
        Some(p) => match p {
            Json::Text(s) => Ok(s.clone()),
            _ => Err(wrong_type(key)),
        },
    }
}

fn bool_field(d: &Json, key: &str) -> (r: Result<Option<bool>, ParseError>)
    ensures
        match sd_bool(*d, key@) {
            Ok(v) => (r matches Ok(x) && x == v),
            Err(_) => (r matches Err(ParseError::MalformedJson(_))),
        },
{
    match member_raw(d, key) {
        None => Ok(None),
        Some(p) => match p {
            Json::Bool(b) => Ok(Some(*b)),
            _ => Err(wrong_type(key)),
        },
    }
}

fn opt_u64(d: &Json, key: &str) -> (r: Result<Option<u64>, ParseError>)
    ensures
        match sd_opt_u64(*d, key@) {
            Ok(v) => (r matches Ok(x) && x == v),
            Err(_) => (r matches Err(ParseError::MalformedJson(_))),
        },
{
    match member(d, key) {
        None => Ok(None),
        Some(p) => match p {
            Json::Number(n) => match n.as_u64 {
                Some(v) => Ok(Some(v)),
                None => Err(wrong_type(key)),
            },
            _ => Err(wrong_type(key)),
        },
    }
}

fn opt_u8(d: &Json, key: &str) -> (r: Result<Option<u8>, ParseError>)
    ensures
        match sd_opt_u8(*d, key@) {
            Ok(v) => (r matches Ok(x) && x == v),
            Err(_) => (r matches Err(ParseError::MalformedJson(_))),
        },
{
    match opt_u64(d, key)? {
        None => Ok(None),
        Some(v) => if v <= u8::MAX as u64 {
            Ok(Some(v as u8))
        } else {
            Err(wrong_type(key))
        },
    }
}

fn u8_strict(d: &Json, key: &str) -> (r: Result<Option<u8>, ParseError>)
    ensures
        match sd_u8_strict(*d, key@) {
            Ok(v) => (r matches Ok(x) && x == v),
            Err(_) => (r matches Err(ParseError::MalformedJson(_))),
        },
{
    match member_raw(d, key) {
        None => Ok(None),
        Some(p) => match p {
            Json::Number(n) => match n.as_u64 {
                Some(v) => if v <= u8::MAX as u64 {
                    Ok(Some(v as u8))
                } else {
                    Err(wrong_type(key))
                },
                None => Err(wrong_type(key)),
            },
            _ => Err(wrong_type(key)),
        },
    }
}

fn opt_u32(d: &Json, key: &str) -> (r: Result<Option<u32>, ParseError>)
    ensures
        match sd_opt_u32(*d, key@) {
            Ok(v) => (r matches Ok(x) && x == v),
            Err(_) => (r matches Err(ParseError::MalformedJson(_))),
        },
{
    match member(d, key) {
        None => Ok(None),
        Some(p) => match p {
            Json::Number(n) => match n.as_u64 {
                Some(v) => if v <= u32::MAX as u64 {
                    Ok(Some(v as u32))
                } else {
                    Err(wrong_type(key))
                },
                None => Err(wrong_type(key)),
            },
            _ => Err(wrong_type(key)),
        },
    }
}

fn opt_i16(d: &Json, key: &str) -> (r: Result<Option<i16>, ParseError>)
    ensures
        match sd_opt_i16(*d, key@) {
            Ok(v) => (r matches Ok(x) && x == v),
            Err(_) => (r matches Err(ParseError::MalformedJson(_))),
        },
{
    match member(d, key) {
        None => Ok(None),
        Some(p) => match p {
            Json::Number(n) => match n.as_i64 {
                Some(v) => if i16::MIN as i64 <= v && v <= i16::MAX as i64 {
                    Ok(Some(v as i16))
                } else {
                    Err(wrong_type(key))
                },
                None => Err(wrong_type(key)),
            },
            _ => Err(wrong_type(key)),
        },
    }
}

fn opt_numtext(d: &Json, key: &str) -> (r: Result<Option<String>, ParseError>)
    ensures
        match sd_opt_numtext(*d, key@) {
            Ok(v) => (r matches Ok(x) && x == v),
            Err(_) => (r matches Err(ParseError::MalformedJson(_))),
        },
{
    match member(d, key) {
        None => Ok(None),
        Some(p) => match p {
            Json::Number(n) => Ok(Some(n.text.clone())),
            _ => Err(wrong_type(key)),
        },
    }
}

fn decode_location(d: &Json) -> (r: Result<WireLocation, ParseError>)
    ensures
        match sd_location(*d) {
            Ok(v) => (r matches Ok(x) && x == v),
            Err(_) => (r matches Err(ParseError::MalformedJson(_))),
        },
{
    if !matches!(d, Json::Object(_)) {
        return Err(wrong_type("location"));
    }
    let latitude = opt_numtext(d, "latitude")?;
    let longitude = opt_numtext(d, "longitude")?;
    let altitude = opt_numtext(d, "altitude")?;
    Ok(WireLocation { latitude, longitude, altitude })
}

/// Decodes one receive-metadata record.
pub fn decode_rx_info(d: &Json) -> (r: Result<WireRxInfo, ParseError>)
    ensures
        match sd_rx(*d) {
            Ok(v) => (r matches Ok(x) && x == v),
            Err(_) => (r matches Err(ParseError::MalformedJson(_))),
        },
{
    if !matches!(d, Json::Object(_)) {
        return Err(wrong_type("rxInfo"));
    }
    let gateway_id = opt_str(d, "gatewayId")?;
    let rssi = opt_i16(d, "rssi")?;
    let snr = opt_numtext(d, "snr")?;
    let channel = u8_strict(d, "channel")?;
    let rf_chain = u8_strict(d, "rfChain")?;
    let location = match member(d, "location") {
        None => None,
        Some(l) => Some(decode_location(l)?),
    };
    Ok(WireRxInfo { gateway_id, rssi, snr, channel, rf_chain, location })
}

fn decode_device_info(d: &Json) -> (r: Result<WireDeviceInfo, ParseError>)
    ensures
        match sd_device_info(*d) {
            Ok(v) => (r matches Ok(x) && x == v),
            Err(_) => (r matches Err(ParseError::MalformedJson(_))),
        },
{
    let di = match member(d, "deviceInfo") {
        None => {
            return Err(missing("deviceInfo"));
        },
        Some(x) => x,
    };
    if !matches!(di, Json::Object(_)) {
        return Err(wrong_type("deviceInfo"));
    }
    let tenant_id = opt_str(di, "tenantId")?;
    let tenant_name = opt_str(di, "tenantName")?;
    let dev_eui = req_str(di, "devEui")?;
    let device_name = opt_str(di, "deviceName")?;
    let application_id = req_str(di, "applicationId")?;
    let application_name = opt_str(di, "applicationName")?;
    let device_profile_id = opt_str(di, "deviceProfileId")?;
    let device_profile_name = opt_str(di, "deviceProfileName")?;
    let device_class_enabled = opt_str(di, "deviceClassEnabled")?;
    Ok(
        WireDeviceInfo {
            tenant_id,
            tenant_name,
            dev_eui,
            device_name,
            application_id,
            application_name,
            device_profile_id,
            device_profile_name,
            device_class_enabled,
        },
    )
}

fn decode_tx_info(d: &Json) -> (r: Result<Option<WireTxInfo>, ParseError>)
    ensures
        match sd_tx(*d) {
            Ok(v) => (r matches Ok(x) && x == v),
            Err(_) => (r matches Err(ParseError::MalformedJson(_))),
        },
{
    match member(d, "txInfo") {
        None => Ok(None),
        Some(t) => {
            if !matches!(t, Json::Object(_)) {
                return Err(wrong_type("txInfo"));
            }
            let frequency = opt_u64(t, "frequency")?;
            Ok(Some(WireTxInfo { frequency }))
        },
    }
}

proof fn lemma_rx_seq_all_ok(elems: Seq<Json>, out: Seq<WireRxInfo>)
    requires
        elems.len() == out.len(),
        forall|j: int| 0 <= j < elems.len() ==> sd_rx(elems[j]) == Ok::<WireRxInfo, ()>(
            #[trigger] out[j],
        ),
    ensures
        sd_rx_seq(elems) == Ok::<Seq<WireRxInfo>, ()>(out),
    decreases elems.len(),
{
    if elems.len() == 0 {
        assert(out =~= Seq::<WireRxInfo>::empty());
    } else {
        assert(sd_rx(elems[0]) == Ok::<WireRxInfo, ()>(out[0]));
        assert forall|j: int| 0 <= j < elems.drop_first().len() implies sd_rx(
            elems.drop_first()[j],
        ) == Ok::<WireRxInfo, ()>(#[trigger] out.drop_first()[j]) by {
            assert(elems.drop_first()[j] == elems[j + 1]);
            assert(out.drop_first()[j] == out[j + 1]);
        }
        lemma_rx_seq_all_ok(elems.drop_first(), out.drop_first());
        assert(seq![out[0]] + out.drop_first() =~= out);
    }
}

proof fn lemma_rx_seq_err_at(elems: Seq<Json>, j: int)
    requires
        0 <= j < elems.len(),
        sd_rx(elems[j]) is Err,
    ensures
        sd_rx_seq(elems) is Err,
    decreases j,
{
    if j > 0 {
        if !(sd_rx(elems[0]) is Err) {
            assert(elems.drop_first()[j - 1] == elems[j]);
            lemma_rx_seq_err_at(elems.drop_first(), j - 1);
        }
    }
}

/// Decodes a whole uplink-event document into the wire schema. Succeeds
/// exactly when the stated policy accepts the document, and the wire value
/// is then the document's reading.
#[verifier::loop_isolation(false)]
pub fn decode_wire(doc: Json) -> (r: Result<WireUplink, ParseError>)
    ensures
        r is Ok <==> spec_decode_ok(doc),
        r matches Ok(w) ==> decodes_to(doc, w),
        r matches Err(e) ==> e matches ParseError::MalformedJson(_),
{
    let device_info = decode_device_info(&doc)?;
    let deduplication_id = opt_str(&doc, "deduplicationId")?;
    let time = opt_str(&doc, "time")?;
    let dev_addr = opt_str(&doc, "devAddr")?;
    let f_port = opt_u8(&doc, "fPort")?;
    let f_cnt = opt_u32(&doc, "fCnt")?;
    let confirmed = bool_field(&doc, "confirmed")?;
    let adr = bool_field(&doc, "adr")?;
    let dr = opt_u8(&doc, "dr")?;
    let mut rx_info: Vec<WireRxInfo> = Vec::new();
    match member_raw(&doc, "rxInfo") {
        None => {},
        Some(x) => match x {
            Json::Array(records) => {
                let n = records.len();
                let mut idx: usize = 0;
                while idx < n
                    invariant
                        n == records@.len(),
                        idx <= n,
                        rx_info@.len() == idx,
                        forall|j: int| 0 <= j < idx ==> sd_rx(records@[j]) == Ok::<WireRxInfo, ()>(
                            #[trigger] rx_info@[j],
                        ),
                    decreases n - idx,
                {
                    let rec = match decode_rx_info(&records[idx]) {
                        Ok(g) => g,
                        Err(e) => {
                            proof {
                                lemma_rx_seq_err_at(records@, idx as int);
                                assert(doc_member_raw(doc, "rxInfo"@) == Some(
                                    Json::Array(*records),
                                ));
                                assert(sd_rx_field(doc) is Err);
                            }
                            return Err(e);
                        },
                    };
                    rx_info.push(rec);
                    idx = idx + 1;
                }
                proof {
                    lemma_rx_seq_all_ok(records@, rx_info@);
                }
            },
            _ => {
                return Err(wrong_type("rxInfo"));
            },
        },
    }
    let tx_info = decode_tx_info(&doc)?;
    let data = opt_str(&doc, "data")?;
    let object = take_member(doc, "object");
    proof {
        assert(rx_info@.len() == 0 ==> rx_info@ =~= Seq::<WireRxInfo>::empty());
    }
    Ok(
        WireUplink {
            deduplication_id,
            time,
            device_info,
            dev_addr,
            f_port,
            f_cnt,
            confirmed,
            adr,
            dr,
            rx_info,
            tx_info,
            object,
            data,
        },
    )
}

} // verus!
