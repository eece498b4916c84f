//! Trusted boundary to the clock and the timestamp parser.

use vstd::prelude::*;

verus! {

/// What `chrono::DateTime::parse_from_rfc3339` followed by
/// `timestamp_micros` yields: `Some` of the instant as microseconds since
/// the Unix epoch when the text is a well-formed RFC 3339 timestamp, `None`
/// otherwise. A function of the text alone.
pub uninterp spec fn rfc3339_micros(s: Seq<char>) -> Option<i64>;

/// Relies on chrono's DateTime::parse_from_rfc3339 and timestamp_micros:
/// the result depends on the text alone. RFC 3339 years have four digits,
/// so the microsecond count of any parseable timestamp fits an i64 and
/// timestamp_micros cannot overflow.
#[verifier::external_body]
pub(crate) fn parse_rfc3339_micros(s: &str) -> (r: Option<i64>)
    ensures
        r == rfc3339_micros(s@),
{
    chrono::DateTime::parse_from_rfc3339(s).ok().map(|dt| dt.timestamp_micros())
}

/// Relies on std::time::SystemTime::now: the current instant as
/// microseconds since the Unix epoch, saturated into an i64 and 0 for a
/// clock set before the epoch, so that no clock state can panic. Nothing is
/// promised of the value; callers treat it as arbitrary.
#[verifier::external_body]
pub(crate) fn now_micros() -> i64 {
    match std::time::SystemTime::now().duration_since(std::time::UNIX_EPOCH) {
        Ok(d) => i64::try_from(d.as_micros()).unwrap_or(i64::MAX),
        Err(_) => 0,
    }
}

} // verus!
