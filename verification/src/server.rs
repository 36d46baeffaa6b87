//! The control socket's admission rules: only the daemon's own user may
//! talk to it, in the daemon's protocol version, and its directory stays
//! private. Sockets and files are the caller's part.

use vstd::prelude::*;
use crate::protocol::{Request, RequestEnvelope, Response, ResponseEnvelope, PROTOCOL_VERSION};
use crate::text::{owned, push_str};

verus! {

#[derive(Clone, Debug, PartialEq, Eq)]
pub enum ServerError {
    /// Another daemon answers on the socket.
    AlreadyRunning(String),
    Inspect { path: String, message: String },
    RemoveStale { path: String, message: String },
    Bind { path: String, message: String },
    Permissions { path: String, message: String },
    Accept(String),
    Signal(String),
    Runtime(String),
    Transport(String),
}

pub open spec fn unsupported_protocol_text(client: u16) -> Seq<char> {
    "client protocol "@ + crate::decimal::dec(client as nat) + " is unsupported; daemon protocol is "@
        + crate::decimal::dec(PROTOCOL_VERSION as nat)
}

/// The answer to a request in another protocol version.
pub fn unsupported_protocol(request_id: u128, client: u16) -> (r: ResponseEnvelope)
    ensures
        r.protocol == PROTOCOL_VERSION,
        r.request_id == request_id,
        r.response matches Response::Error { code, message, retryable, details } && code@
            == "unsupported_protocol"@ && message@ == unsupported_protocol_text(client) && !retryable
            && details is None,
{
    let mut m: Vec<char> = Vec::new();
    push_str(&mut m, "client protocol ");
    crate::decimal::push_dec(&mut m, client as u64);
    push_str(&mut m, " is unsupported; daemon protocol is ");
    crate::decimal::push_dec(&mut m, PROTOCOL_VERSION as u64);
    ResponseEnvelope::new(
        request_id,
        Response::Error {
            code: owned("unsupported_protocol"),
            message: crate::text::string_from(m.as_slice()),
            retryable: false,
            details: None,
        },
    )
}

/// What a connection does with the one request it received.
#[derive(Clone, Debug)]
pub enum ConnectionStep {
    /// Send this answer and close.
    Reply(ResponseEnvelope),
    /// Stream events for this request.
    Watch { request_id: u128 },
    /// Answer the request through the daemon.
    Handle { request_id: u128, request: Request },
}

/// A request in another protocol version is answered `unsupported_protocol`;
/// a watch becomes a stream; anything else goes to the daemon.
pub fn connection_step(envelope: RequestEnvelope) -> (s: ConnectionStep)
    ensures
        envelope.protocol != PROTOCOL_VERSION ==> (s matches ConnectionStep::Reply(e)
            && e.protocol == PROTOCOL_VERSION && e.request_id == envelope.request_id && (
        e.response matches Response::Error { code, message, retryable, details } && code@
            == "unsupported_protocol"@ && message@ == unsupported_protocol_text(envelope.protocol)
            && !retryable && details is None)),
        envelope.protocol == PROTOCOL_VERSION && (envelope.request is Watch) ==> s == (
        ConnectionStep::Watch { request_id: envelope.request_id }),
        envelope.protocol == PROTOCOL_VERSION && !(envelope.request is Watch) ==> s == (
        ConnectionStep::Handle { request_id: envelope.request_id, request: envelope.request }),
{
    if envelope.protocol != PROTOCOL_VERSION {
        return ConnectionStep::Reply(unsupported_protocol(envelope.request_id, envelope.protocol));
    }
    match envelope.request {
        Request::Watch => ConnectionStep::Watch { request_id: envelope.request_id },
        request => ConnectionStep::Handle { request_id: envelope.request_id, request },
    }
}

pub open spec fn peer_mismatch_text(peer: u32, daemon: u32) -> Seq<char> {
    "client UID "@ + crate::decimal::dec(peer as nat) + " does not match daemon UID "@
        + crate::decimal::dec(daemon as nat)
}

/// A client of another user is answered `unauthorized` and nothing else.
pub fn peer_check(request_id: u128, peer_uid: u32, daemon_uid: u32) -> (r: Option<ResponseEnvelope>)
    ensures
        peer_uid == daemon_uid ==> r is None,
        peer_uid != daemon_uid ==> (r matches Some(e) && e.protocol == PROTOCOL_VERSION
            && e.request_id == request_id && (
        e.response matches Response::Error { code, message, retryable, details } && code@
            == "unauthorized"@ && message@ == peer_mismatch_text(peer_uid, daemon_uid) && !retryable
            && details is None)),
{
    if peer_uid == daemon_uid {
        return None;
    }
    let mut m: Vec<char> = Vec::new();
    push_str(&mut m, "client UID ");
    crate::decimal::push_dec(&mut m, peer_uid as u64);
    push_str(&mut m, " does not match daemon UID ");
    crate::decimal::push_dec(&mut m, daemon_uid as u64);
    Some(ResponseEnvelope::error(request_id, owned("unauthorized"), crate::text::string_from(m.as_slice())))
}

/// The permission bits a private directory must have: owner only.
pub fn needs_private_mode(mode: u32) -> (b: bool)
    ensures
        b == (mode % 512 != 448),
{
    let bits = mode & 511;
    assert(mode & 511 == mode % 512) by (bit_vector);
    bits != 448
}

} // verus!
