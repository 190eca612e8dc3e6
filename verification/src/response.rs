//! Response handling: from an HTTP status, the rate-limit header and the
//! body text to a typed record or a typed error.
//!
//! The protocol, for single and batch lookups alike: a 429 status is reported
//! as a rate limit with the seconds from the `X-Ttl` header; a body that
//! could not be read is an unexpected failure; then the body is read
//! permissively for an in-band `message` member — present and non-empty
//! means the record is an error payload — and only if no record signaled an
//! error is the body decoded into the result.

use vstd::prelude::*;
use vstd::string::StringExecFns;
use crate::error::IpApiError;
use crate::json::doc_arr_len;
use crate::json::doc_elem;
use crate::json::doc_is_obj;
use crate::json::doc_str;
use crate::json::encode_string_array;
use crate::json::json_array_len;
use crate::json::json_elem;
use crate::json::json_is_object;
use crate::json::json_str_member;
use crate::json::json_string_array;
use crate::json::opt_str_view;
use crate::record::decode_record;
use crate::record::record_matches;
use crate::record::IpData;
use crate::text::parse_u8;
use crate::text::u8_parse;

verus! {

/// What the transport found in the `X-Ttl` response header.
#[derive(Clone, Debug)]
pub enum TtlHeader {
    /// No such header on the response.
    Absent,
    /// The header is present but its bytes are not readable as text.
    NotText,
    /// The header's text.
    Value(String),
}

/// What the transport handed back as the response body.
#[derive(Clone, Debug)]
pub enum BodyOutcome {
    /// The response carried no body at all.
    Missing,
    /// The body could not be read from the wire.
    Unreadable,
    /// The body was read but is not valid text.
    NotText,
    /// The body text.
    Text(String),
}

/// Whether `r` failed with an unexpected error carrying exactly `detail`.
pub open spec fn is_unexpected_err<T>(r: Result<T, IpApiError>, detail: Seq<char>) -> bool {
    r matches Err(IpApiError::UnexpectedError(Some(d))) && d@ == detail
}

/// The error a 429 response resolves to: the seconds from a readable,
/// parseable `X-Ttl` header, and an unexpected failure otherwise — a missing
/// or malformed header is never silently defaulted.
pub open spec fn rate_limited_outcome(ttl: TtlHeader, e: IpApiError) -> bool {
    match ttl {
        TtlHeader::Absent => e matches IpApiError::UnexpectedError(Some(d)) && d@
            == "Failed to get `X-Ttl` header from the response"@,
        TtlHeader::NotText => e matches IpApiError::UnexpectedError(Some(d)) && d@
            == "Failed to convert `X-Ttl` header from the response to &str"@,
        TtlHeader::Value(h) => match u8_parse(h@) {
            Some(v) => e == IpApiError::RateLimit(v),
            None => e matches IpApiError::UnexpectedError(Some(d)) && d@
                == "Failed to parse `X-Ttl` header from the response"@,
        },
    }
}

/// Whether an in-band `message` member signals an error: present and
/// non-empty.
pub open spec fn is_error_message(m: Option<Seq<char>>) -> bool {
    m matches Some(s) && s.len() > 0
}

/// The error a non-empty in-band message maps to.
pub open spec fn message_maps_to(msg: Seq<char>, e: IpApiError) -> bool {
    if msg == "invalid query"@ {
        e == IpApiError::InvalidQuery
    } else if msg == "private range"@ {
        e == IpApiError::PrivateRange
    } else if msg == "reserved range"@ {
        e == IpApiError::ReservedRange
    } else {
        e matches IpApiError::UnexpectedError(Some(d)) && d@ == msg
    }
}

/// The detail text a failed body read resolves to.
pub open spec fn body_failure_detail(b: BodyOutcome) -> Seq<char> {
    match b {
        BodyOutcome::Missing => "Response is empty"@,
        BodyOutcome::Unreadable => "Failed to retrieve body from the response"@,
        BodyOutcome::NotText => "Failed to convert body from the response to String"@,
        BodyOutcome::Text(_) => Seq::<char>::empty(),
    }
}

/// An unexpected error carrying `detail`.
fn unexpected(detail: &str) -> (e: IpApiError)
    ensures
        e matches IpApiError::UnexpectedError(Some(d)) && d@ == detail@,
{
    IpApiError::UnexpectedError(Some(String::from_str(detail)))
}

/// Map the HTTP status and the rate-limit header: only a 429 fails, and it
/// always fails.
pub fn check_response(status: u16, ttl: TtlHeader) -> (r: Result<(), IpApiError>)
    ensures
        status != 429 ==> r is Ok,
        status == 429 ==> (r matches Err(e) && rate_limited_outcome(ttl, e)),
{
    if status != 429 {
        return Ok(());
    }
    match ttl {
        TtlHeader::Absent => Err(unexpected("Failed to get `X-Ttl` header from the response")),
        TtlHeader::NotText => Err(
            unexpected("Failed to convert `X-Ttl` header from the response to &str"),
        ),
        TtlHeader::Value(h) => match parse_u8(h.as_str()) {
            Some(v) => Err(IpApiError::RateLimit(v)),
            None => Err(unexpected("Failed to parse `X-Ttl` header from the response")),
        },
    }
}

/// Map an in-band `message` member: a present, non-empty message makes the
/// record an error payload; everything else passes.
pub fn check_error_message(message: Option<String>) -> (r: Result<(), IpApiError>)
    ensures
        !is_error_message(opt_str_view(message)) ==> r is Ok,
        is_error_message(opt_str_view(message)) ==> (r matches Err(e) && message matches Some(m)
            && message_maps_to(m@, e)),
{
    match message {
        None => Ok(()),
        Some(m) => {
            if m.as_str().is_empty() {
                Ok(())
            } else if m == String::from_str("invalid query") {
                Err(IpApiError::InvalidQuery)
            } else if m == String::from_str("private range") {
                Err(IpApiError::PrivateRange)
            } else if m == String::from_str("reserved range") {
                Err(IpApiError::ReservedRange)
            } else {
                Err(IpApiError::UnexpectedError(Some(m)))
            }
        },
    }
}

/// The JSON body of a batch request: the targets as a JSON array of strings.
pub fn batch_request_body(targets: &Vec<String>) -> (r: String)
    ensures
        r@ == json_string_array(targets.deep_view()),
{
    encode_string_array(targets)
}

/// Decide a single-lookup exchange: HTTP status and `X-Ttl` header first,
/// then the body read, then the in-band message, then the record decode.
pub fn evaluate_single_response(status: u16, ttl: TtlHeader, body: BodyOutcome) -> (r: Result<
    IpData,
    IpApiError,
>)
    ensures
        status == 429 ==> (r matches Err(e) && rate_limited_outcome(ttl, e)),
        status != 429 ==> match body {
            BodyOutcome::Text(s) => {
                if !doc_is_obj(s@) {
                    is_unexpected_err(r, "Failed to parse body from the response"@)
                } else if is_error_message(doc_str(s@, "message"@)) {
                    r matches Err(e) && message_maps_to(doc_str(s@, "message"@).unwrap(), e)
                } else {
                    r matches Ok(d) && record_matches(d, s@)
                }
            },
            _ => is_unexpected_err(r, body_failure_detail(body)),
        },
{
    match check_response(status, ttl) {
        Ok(_) => {},
        Err(e) => {
            return Err(e);
        },
    }
    let text = match body {
        BodyOutcome::Text(s) => s,
        BodyOutcome::Missing => {
            return Err(unexpected("Response is empty"));
        },
        BodyOutcome::Unreadable => {
            return Err(unexpected("Failed to retrieve body from the response"));
        },
        BodyOutcome::NotText => {
            return Err(unexpected("Failed to convert body from the response to String"));
        },
    };
    if !json_is_object(text.as_str()) {
        return Err(unexpected("Failed to parse body from the response"));
    }
    let msg = json_str_member(text.as_str(), "message");
    match check_error_message(msg) {
        Ok(_) => {},
        Err(e) => {
            return Err(e);
        },
    }
    Ok(decode_record(text.as_str()))
}

/// The element count of the batch body, once known to be an array.
pub open spec fn batch_len(body: Seq<char>) -> int {
    doc_arr_len(body).unwrap()
}

/// The `i`th element of the batch body as JSON text.
pub open spec fn batch_elem_text(body: Seq<char>, i: int) -> Seq<char> {
    doc_elem(body, i).unwrap()
}

/// Whether the batch body has the shape the service promises: an array whose
/// every element is an object.
pub open spec fn batch_shape_ok(body: Seq<char>) -> bool {
    &&& doc_arr_len(body) is Some
    &&& forall|i: int|
        0 <= i < batch_len(body) ==> #[trigger] doc_elem(body, i) is Some && doc_is_obj(
            batch_elem_text(body, i),
        )
}

/// The in-band message of the `i`th batch element.
pub open spec fn batch_msg(body: Seq<char>, i: int) -> Option<Seq<char>> {
    doc_str(batch_elem_text(body, i), "message"@)
}

/// Whether no batch element signals an in-band error.
pub open spec fn batch_messages_ok(body: Seq<char>) -> bool {
    forall|i: int| 0 <= i < batch_len(body) ==> !is_error_message(#[trigger] batch_msg(body, i))
}

/// Decide a batch exchange. On success the records come back one per
/// element, in the element order of the body — never re-sorted. Message
/// checking stops at the first element that signals an error.
#[verifier::loop_isolation(false)]
pub fn evaluate_batch_response(status: u16, ttl: TtlHeader, body: BodyOutcome) -> (r: Result<
    Vec<IpData>,
    IpApiError,
>)
    ensures
        status == 429 ==> (r matches Err(e) && rate_limited_outcome(ttl, e)),
        status != 429 ==> match body {
            BodyOutcome::Text(s) => {
                if !batch_shape_ok(s@) {
                    is_unexpected_err(r, "Failed to parse body from the response"@)
                } else if !batch_messages_ok(s@) {
                    r matches Err(e) && (exists|i: int|
                        0 <= i < batch_len(s@) && is_error_message(#[trigger] batch_msg(s@, i))
                            && message_maps_to(batch_msg(s@, i).unwrap(), e) && (forall|j: int|
                            0 <= j < i ==> !is_error_message(#[trigger] batch_msg(s@, j))))
                } else {
                    r matches Ok(v) && v@.len() == batch_len(s@) && (forall|i: int|
                        0 <= i < v@.len() ==> #[trigger] record_matches(
                            v@[i],
                            batch_elem_text(s@, i),
                        ))
                }
            },
            _ => is_unexpected_err(r, body_failure_detail(body)),
        },
{
    match check_response(status, ttl) {
        Ok(_) => {},
        Err(e) => {
            return Err(e);
        },
    }
    let text = match body {
        BodyOutcome::Text(s) => s,
        BodyOutcome::Missing => {
            return Err(unexpected("Response is empty"));
        },
        BodyOutcome::Unreadable => {
            return Err(unexpected("Failed to retrieve body from the response"));
        },
        BodyOutcome::NotText => {
            return Err(unexpected("Failed to convert body from the response to String"));
        },
    };
    let n = match json_array_len(text.as_str()) {
        Some(n) => n,
        None => {
            return Err(unexpected("Failed to parse body from the response"));
        },
    };
    // Every element must be an object, else the body does not decode.
    let mut i: usize = 0;
    while i < n
        invariant
            i <= n,
            forall|k: int| 0 <= k < i ==> doc_is_obj(#[trigger] batch_elem_text(text@, k)),
        decreases n - i,
    {
        let et = match json_elem(text.as_str(), i) {
            Some(t) => t,
            None => {
                return Err(unexpected("Failed to parse body from the response"));
            },
        };
        if !json_is_object(et.as_str()) {
            proof {
                assert(!doc_is_obj(batch_elem_text(text@, i as int)));
                assert(!batch_shape_ok(text@));
            }
            return Err(unexpected("Failed to parse body from the response"));
        }
        i += 1;
    }
    proof {
        assert(batch_shape_ok(text@));
    }
    // The first element that carries a message decides the whole call.
    let mut i: usize = 0;
    while i < n
        invariant
            i <= n,
            forall|k: int| 0 <= k < i ==> !is_error_message(#[trigger] batch_msg(text@, k)),
        decreases n - i,
    {
        let et = match json_elem(text.as_str(), i) {
            Some(t) => t,
            None => {
                return Err(unexpected("Failed to parse body from the response"));
            },
        };
        let msg = json_str_member(et.as_str(), "message");
        match check_error_message(msg) {
            Ok(_) => {},
            Err(e) => {
                proof {
                    assert(is_error_message(batch_msg(text@, i as int)));
                    assert(!batch_messages_ok(text@));
                }
                return Err(e);
            },
        }
        i += 1;
    }
    proof {
        assert(batch_messages_ok(text@));
    }
    // No element signaled an error: decode them all, in order.
    let mut out: Vec<IpData> = Vec::new();
    let mut i: usize = 0;
    while i < n
        invariant
            i <= n,
            out@.len() == i,
            forall|k: int|
                0 <= k < i ==> #[trigger] record_matches(out@[k], batch_elem_text(text@, k)),
        decreases n - i,
    {
        let et = match json_elem(text.as_str(), i) {
            Some(t) => t,
            None => {
                return Err(unexpected("Failed to parse body from the response"));
            },
        };
        out.push(decode_record(et.as_str()));
        i += 1;
    }
    Ok(out)
}

} // verus!
