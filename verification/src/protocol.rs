//! The versioned protocol spoken on the control socket: requests, responses
//! and events as values. Each frame is one JSON line; encoding is the
//! transport's part.

use vstd::prelude::*;
use crate::capabilities::Capabilities;
use crate::domain::{LaunchPlan, RecordingRequest};
use crate::ids::{DaemonLifetimeId, SessionId};
use crate::state::SessionSnapshot;

verus! {

pub const PROTOCOL_VERSION: u16 = 1;

/// Largest frame accepted, in bytes.
pub const MAX_FRAME_BYTES: usize = 1048576;

pub const ERROR_SESSION_MISMATCH: &'static str = "session_mismatch";

pub const ERROR_OVERWRITE_UNSUPPORTED: &'static str = "overwrite_unsupported";

pub const ERROR_INVALID_REQUEST: &'static str = "invalid_request";

pub const ERROR_UNSUPPORTED_PROTOCOL: &'static str = "unsupported_protocol";

pub const ERROR_UNAUTHORIZED: &'static str = "unauthorized";

#[derive(Clone, Debug)]
pub enum Request {
    Hello,
    Status,
    Capabilities { refresh: bool },
    Plan { request: RecordingRequest },
    Start { request: RecordingRequest },
    /// Mutating controls name the session they mean.
    Stop { expected_session_id: SessionId, force: bool },
    Pause { expected_session_id: SessionId },
    Resume { expected_session_id: SessionId },
    Reload,
    Watch,
    Doctor,
}

#[derive(Clone, Debug)]
pub struct RequestEnvelope {
    pub protocol: u16,
    pub request_id: u128,
    pub request: Request,
}

#[derive(Clone, Copy, Debug, PartialEq, Eq, Structural)]
pub enum CheckStatus {
    Pass,
    Warning,
    Fail,
    Skipped,
}

#[derive(Clone, Debug, PartialEq, Eq)]
pub struct DoctorCheck {
    pub id: String,
    pub status: CheckStatus,
    pub summary: String,
    pub detail: Option<String>,
    pub remediation: Option<String>,
}

#[derive(Clone, Debug, PartialEq, Eq)]
pub struct DoctorReport {
    pub ok: bool,
    pub checks: Vec<DoctorCheck>,
    pub redactions_applied: Vec<String>,
}

impl Default for DoctorReport {
    fn default() -> (r: Self)
        ensures
            !r.ok && r.checks@.len() == 0 && r.redactions_applied@.len() == 0,
    {
        DoctorReport { ok: false, checks: Vec::new(), redactions_applied: Vec::new() }
    }
}

#[derive(Clone, Debug)]
pub enum Response {
    Hello { daemon_version: String, protocol: u16, features: Vec<String> },
    Status {
        snapshot: SessionSnapshot,
        daemon_lifetime_id: Option<DaemonLifetimeId>,
        config_generation: u64,
    },
    Capabilities { capabilities: Capabilities },
    Plan { plan: LaunchPlan },
    Accepted { session_id: SessionId },
    Acknowledged,
    Reloaded { config_generation: u64 },
    Doctor { report: DoctorReport },
    /// `details` is JSON text when present.
    Error { code: String, message: String, retryable: bool, details: Option<String> },
}

#[derive(Clone, Debug)]
pub struct ResponseEnvelope {
    pub protocol: u16,
    pub request_id: u128,
    pub response: Response,
}

#[derive(Clone, Debug)]
pub enum Event {
    /// The state when a watch begins; later events carry larger sequences.
    Snapshot { snapshot: SessionSnapshot, watermark: u64 },
    StateChanged { snapshot: SessionSnapshot },
    FirstFrame { session_id: SessionId },
    FileSaved { session_id: SessionId, output: String },
    ConfigReloaded { generation: u64 },
    Lag { skipped: u64 },
    Warning { session_id: Option<SessionId>, message: String },
    Error { session_id: Option<SessionId>, code: String, message: String },
    Heartbeat,
}

#[derive(Clone, Debug)]
pub struct EventEnvelope {
    pub protocol: u16,
    pub sequence: u64,
    pub daemon_lifetime_id: Option<DaemonLifetimeId>,
    pub event: Event,
}

impl RequestEnvelope {
    /// A request of this protocol version with a fresh identifier, its
    /// random bits from `random`.
    pub fn new(request: Request, random: [u8; 10]) -> (e: Self)
        ensures
            e.protocol == PROTOCOL_VERSION,
            e.request == request,
            crate::ids::is_v7(e.request_id),
            exists|millis: u64| e.request_id == crate::ids::v7_value(millis, random@),
    {
        RequestEnvelope {
            protocol: PROTOCOL_VERSION,
            request_id: crate::ids::fresh_request_id(random),
            request,
        }
    }
}

impl ResponseEnvelope {
    pub fn new(request_id: u128, response: Response) -> (e: Self)
        ensures
            e.protocol == PROTOCOL_VERSION,
            e.request_id == request_id,
            e.response == response,
    {
        ResponseEnvelope { protocol: PROTOCOL_VERSION, request_id, response }
    }

    /// A failure that retrying will not mend.
    pub fn error(request_id: u128, code: String, message: String) -> (e: Self)
        ensures
            e.protocol == PROTOCOL_VERSION,
            e.request_id == request_id,
            e.response == (Response::Error { code, message, retryable: false, details: None }),
    {
        ResponseEnvelope::new(
            request_id,
            Response::Error { code, message, retryable: false, details: None },
        )
    }
}

/// A watch forwards only events newer than the snapshot it began with.
pub fn forward_after_watermark(sequence: u64, watermark: u64) -> (b: bool)
    ensures
        b == (sequence > watermark),
{
    sequence > watermark
}

} // verus!
