//! Error kinds the adapter reports to its caller.

use vstd::prelude::*;

verus! {

/// A hard failure while handling one message.
///
/// "Not an uplink event" is not an error: `parse_message` reports it as
/// `Ok(None)` so that a dispatcher can try other vendor adapters.
#[derive(Debug)]
pub enum ParseError {
    /// The payload exceeds the size limit; carries the actual and allowed sizes.
    OversizePayload { size: usize, limit: usize },
    /// The payload is not the expected JSON shape; carries the underlying
    /// decoder diagnostic so the caller can act without re-parsing.
    MalformedJson(String),
    /// The device EUI fails canonical-format validation; carries the
    /// offending identifier.
    InvalidIdentity(String),
}

} // verus!
