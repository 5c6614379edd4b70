//! Per-request identifiers: the request id echoed in `x-request-id`, and the
//! trace and span ids reported in every response envelope.

use vstd::prelude::*;

use crate::encoding::{encode_hex_lower, is_lower_hex, lemma_hex_lower_is_lower_hex};
use crate::random::{is_v4_uuid_text, new_v4_uuid_text, random_bytes};

verus! {

pub const REQUEST_ID_HEADER: &'static str = "x-request-id";

/// `std::time::Instant`, carried through unread.
#[verifier::external_type_specification]
#[verifier::external_body]
pub struct ExInstant(std::time::Instant);

/// `Instant::clone`: `Instant` is `Copy`, so a clone is the same instant.
pub assume_specification[ <std::time::Instant as Clone>::clone ](i: &std::time::Instant) -> (r:
    std::time::Instant)
    ensures
        r == *i,
;

/// `std::time::Instant::now`: the current instant of the monotonic clock.
/// Nothing is stated of it.
#[verifier::external_body]
fn instant_now() -> std::time::Instant {
    std::time::Instant::now()
}

#[derive(Debug, Clone)]
pub struct RequestContext {
    pub request_id: String,
    pub trace_id: String,
    pub span_id: String,
    pub started: std::time::Instant,
}

/// `s` is `2 * n` lower-case hex digits.
pub open spec fn is_hex_id(s: Seq<char>, n: nat) -> bool {
    s.len() == 2 * n && is_lower_hex(s)
}

/// Lower-case hex of `bytes` random bytes.
fn random_hex(bytes: usize) -> (s: String)
    ensures
        is_hex_id(s@, bytes as nat),
{
    let buf = random_bytes(bytes);
    let s = encode_hex_lower(buf.as_slice());
    proof {
        lemma_hex_lower_is_lower_hex(buf@);
    }
    s
}

impl RequestContext {
    /// A context for an error that surfaces outside a handler: a fresh
    /// request id.
    pub fn standalone() -> (c: RequestContext)
        ensures
            is_v4_uuid_text(c.request_id@),
            is_hex_id(c.trace_id@, 16),
            is_hex_id(c.span_id@, 8),
    {
        Self::generate(None)
    }

    /// Keeps the caller's request id when one came in, else makes one up;
    /// trace and span ids are always fresh.
    pub fn generate(incoming_request_id: Option<String>) -> (c: RequestContext)
        ensures
            match incoming_request_id {
                Some(id) => c.request_id == id,
                None => is_v4_uuid_text(c.request_id@),
            },
            is_hex_id(c.trace_id@, 16),
            is_hex_id(c.span_id@, 8),
    {
        let request_id = match incoming_request_id {
            Some(id) => id,
            None => new_v4_uuid_text(),
        };
        RequestContext {
            request_id,
            trace_id: random_hex(16),
            span_id: random_hex(8),
            started: instant_now(),
        }
    }
}

} // verus!
