//! The error taxonomy: every way a lookup can fail, folded into one surface
//! for callers to match against.

use vstd::prelude::*;

verus! {

/// Represents all the ways that a request can fail.
#[derive(Clone, Debug)]
pub enum IpApiError {
    /// Incorrect IP address or non-existent domain, e.g. `1.1.1.one`.
    InvalidQuery,
    /// An address inside a private range, e.g. `192.168.1.1`.
    PrivateRange,
    /// The service refused the request for rate reasons; carries the seconds
    /// left until a request may succeed again.
    RateLimit(u8),
    /// An address inside a reserved range, e.g. `127.0.0.1`.
    ReservedRange,
    /// Any other failure: transport, malformed header, undecodable body or
    /// an unrecognized in-band message. May carry detail text.
    UnexpectedError(Option<String>),
}

} // verus!
