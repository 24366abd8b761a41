//! Audio retrieval from a local backend's HTTP endpoint.  The embedding
//! program issues one GET with the fixed upper-bound timeout and reports
//! what happened as a [`FetchEvent`]; classification of the event — the
//! only decision in this path — is verified here.  There is no retry: the
//! caller owns retry and backoff policy.

use vstd::prelude::*;
use crate::text::{concat2, concat3, dec_digits, has_sub, u64_to_dec};

verus! {

/// The fixed upper bound, in seconds, on the whole audio request.
pub const FETCH_TIMEOUT_SECS: u64 = 30;

/// What the audio request produced.  `Transport` is a network-level
/// failure — connection refused, or the fixed timeout exceeded — that
/// yielded no HTTP response at all.  `Response` is an HTTP response:
/// its status code, the body bytes (reading them can itself fail), and
/// the body decoded as text for diagnostic use (empty when the bytes
/// could not be read).
#[derive(Debug)]
pub enum FetchEvent {
    Transport { error: String },
    Response { status: u16, body: Result<Vec<u8>, String>, body_text: String },
}

/// The error text for a response whose status is not a success: it
/// carries the decimal status code and the response body text.
pub open spec fn spec_status_error(status: u16, body_text: Seq<char>) -> Seq<char> {
    "TTS server error "@ + dec_digits(status as nat) + ": "@ + body_text
}

/// The error text for a network-level failure: it carries the transport
/// failure's description, and no status code prefix.
pub open spec fn spec_transport_error(error: Seq<char>) -> Seq<char> {
    "TTS fetch error: "@ + error
}

/// The error text for a response whose body could not be read.
pub open spec fn spec_body_error(error: Seq<char>) -> Seq<char> {
    "Failed to read TTS audio: "@ + error
}

/// An HTTP status that counts as success.
pub open spec fn spec_status_ok(status: u16) -> bool {
    200 <= status < 300
}

/// Classifies the audio request's event.  The audio bytes come back
/// exactly when an HTTP response arrived with a success status and a
/// readable body; a non-success status yields the status-code error; a
/// transport failure yields the distinct transport error.
pub fn classify_fetch(ev: FetchEvent) -> (r: Result<Vec<u8>, String>)
    ensures
        match ev {
            FetchEvent::Transport { error } => r matches Err(m) && m@ == spec_transport_error(
                error@,
            ),
            FetchEvent::Response { status, body, body_text } => {
                if !spec_status_ok(status) {
                    r matches Err(m) && m@ == spec_status_error(status, body_text@)
                } else {
                    match body {
                        Result::Ok(bytes) => r matches Ok(b) && b@ == bytes@,
                        Result::Err(e) => r matches Err(m) && m@ == spec_body_error(e@),
                    }
                }
            },
        },
{
    match ev {
        FetchEvent::Transport { error } => Err(concat2("TTS fetch error: ", error.as_str())),
        FetchEvent::Response { status, body, body_text } => {
            if status < 200 || status >= 300 {
                let code = u64_to_dec(status as u64);
                let prefix = concat3("TTS server error ", code.as_str(), ": ");
                Err(prefix.concat(body_text.as_str()))
            } else {
                match body {
                    Ok(bytes) => Ok(bytes),
                    Err(e) => Err(concat2("Failed to read TTS audio: ", e.as_str())),
                }
            }
        },
    }
}

/// Law: the status-code error always contains the decimal status code of
/// the response it reports.
pub proof fn lemma_status_error_carries_code(status: u16, body_text: Seq<char>)
    ensures
        has_sub(spec_status_error(status, body_text), dec_digits(status as nat)),
{
    reveal_strlit("TTS server error ");
    let msg = spec_status_error(status, body_text);
    let code = dec_digits(status as nat);
    let i: int = "TTS server error "@.len() as int;
    assert(msg.subrange(i, i + code.len() as int) =~= code);
}

/// Law: a request that exceeded the timeout (or failed at transport
/// level in any other way) yields the transport error, which is never
/// equal to any status-code error — the two failure kinds cannot be
/// confused, whatever their texts.
pub proof fn lemma_fetch_errors_distinct(
    status: u16,
    body_text: Seq<char>,
    transport: Seq<char>,
)
    ensures
        spec_status_error(status, body_text) != spec_transport_error(transport),
{
    reveal_strlit("TTS server error ");
    reveal_strlit("TTS fetch error: ");
    let a = spec_status_error(status, body_text);
    let b = spec_transport_error(transport);
    assert(a[4] == 's');
    assert(b[4] == 'f');
}

} // verus!
