//! Session lifecycle: phases, the transition table, and the session machine.

use vstd::prelude::*;
use crate::domain::{
    codec_name, container_extension, target_summary, webcam_summary, AudioSource, EvaluatedSpec,
};
use crate::ids::SessionId;
use crate::text::{push_str, texts};

verus! {

#[derive(Clone, Copy, Debug, PartialEq, Eq, Structural)]
pub enum SessionPhase {
    Idle,
    Preparing,
    Launching,
    Recording,
    Paused,
    Stopping,
    Finalizing,
    Recovering,
    Completed,
    Cancelled,
    Failed,
}

impl SessionPhase {
    pub open spec fn spec_is_terminal(self) -> bool {
        self is Completed || self is Cancelled || self is Failed
    }

    pub open spec fn spec_is_active(self) -> bool {
        !(self is Idle || self is Completed || self is Cancelled || self is Failed)
    }

    pub fn is_terminal(self) -> (b: bool)
        ensures
            b == self.spec_is_terminal(),
    {
        match self {
            SessionPhase::Completed | SessionPhase::Cancelled | SessionPhase::Failed => true,
            _ => false,
        }
    }

    pub fn is_active(self) -> (b: bool)
        ensures
            b == self.spec_is_active(),
    {
        match self {
            SessionPhase::Idle | SessionPhase::Completed | SessionPhase::Cancelled
            | SessionPhase::Failed => false,
            _ => true,
        }
    }

    /// Every phase, in declaration order.
    pub fn all() -> (r: [SessionPhase; 11])
        ensures
            r@ == seq![
                SessionPhase::Idle,
                SessionPhase::Preparing,
                SessionPhase::Launching,
                SessionPhase::Recording,
                SessionPhase::Paused,
                SessionPhase::Stopping,
                SessionPhase::Finalizing,
                SessionPhase::Recovering,
                SessionPhase::Completed,
                SessionPhase::Cancelled,
                SessionPhase::Failed,
            ],
    {
        let r = [
            SessionPhase::Idle,
            SessionPhase::Preparing,
            SessionPhase::Launching,
            SessionPhase::Recording,
            SessionPhase::Paused,
            SessionPhase::Stopping,
            SessionPhase::Finalizing,
            SessionPhase::Recovering,
            SessionPhase::Completed,
            SessionPhase::Cancelled,
            SessionPhase::Failed,
        ];
        assert(r@ =~= seq![
            SessionPhase::Idle,
            SessionPhase::Preparing,
            SessionPhase::Launching,
            SessionPhase::Recording,
            SessionPhase::Paused,
            SessionPhase::Stopping,
            SessionPhase::Finalizing,
            SessionPhase::Recovering,
            SessionPhase::Completed,
            SessionPhase::Cancelled,
            SessionPhase::Failed,
        ]);
        r
    }
}

impl Default for SessionPhase {
    fn default() -> (p: Self)
        ensures
            p == SessionPhase::Idle,
    {
        SessionPhase::Idle
    }
}

/// The lifecycle's transition table.
pub open spec fn spec_allowed(current: SessionPhase, next: SessionPhase) -> bool {
    match current {
        SessionPhase::Preparing => next is Launching || next is Cancelled || next is Failed,
        SessionPhase::Launching => next is Recording || next is Stopping || next is Cancelled
            || next is Failed || next is Recovering,
        SessionPhase::Recording => next is Paused || next is Stopping || next is Failed
            || next is Recovering,
        SessionPhase::Paused => next is Recording || next is Stopping || next is Failed
            || next is Recovering,
        SessionPhase::Stopping => next is Finalizing || next is Completed || next is Cancelled
            || next is Failed || next is Recovering,
        SessionPhase::Finalizing => next is Completed || next is Failed,
        SessionPhase::Recovering => next is Recording || next is Paused || next is Stopping
            || next is Finalizing || next is Cancelled || next is Failed,
        _ => false,
    }
}

pub fn allowed(current: SessionPhase, next: SessionPhase) -> (b: bool)
    ensures
        b == spec_allowed(current, next),
{
    match current {
        SessionPhase::Preparing => matches!(
            next,
            SessionPhase::Launching | SessionPhase::Cancelled | SessionPhase::Failed
        ),
        SessionPhase::Launching => matches!(
            next,
            SessionPhase::Recording | SessionPhase::Stopping | SessionPhase::Cancelled
                | SessionPhase::Failed | SessionPhase::Recovering
        ),
        SessionPhase::Recording => matches!(
            next,
            SessionPhase::Paused | SessionPhase::Stopping | SessionPhase::Failed
                | SessionPhase::Recovering
        ),
        SessionPhase::Paused => matches!(
            next,
            SessionPhase::Recording | SessionPhase::Stopping | SessionPhase::Failed
                | SessionPhase::Recovering
        ),
        SessionPhase::Stopping => matches!(
            next,
            SessionPhase::Finalizing | SessionPhase::Completed | SessionPhase::Cancelled
                | SessionPhase::Failed | SessionPhase::Recovering
        ),
        SessionPhase::Finalizing => matches!(next, SessionPhase::Completed | SessionPhase::Failed),
        SessionPhase::Recovering => matches!(
            next,
            SessionPhase::Recording | SessionPhase::Paused | SessionPhase::Stopping
                | SessionPhase::Finalizing | SessionPhase::Cancelled | SessionPhase::Failed
        ),
        _ => false,
    }
}

/// A terminal phase is never active, and neither is the idle phase.
pub proof fn lemma_terminal_is_not_active(p: SessionPhase)
    ensures
        p.spec_is_terminal() ==> !p.spec_is_active(),
        p == SessionPhase::Idle ==> !p.spec_is_active() && !p.spec_is_terminal(),
        p.spec_is_active() <==> !(p == SessionPhase::Idle || p.spec_is_terminal()),
{
}

/// No transition leaves a terminal phase or the idle phase; only `begin` leaves idle.
pub proof fn lemma_no_exit_from_rest(p: SessionPhase, q: SessionPhase)
    requires
        p.spec_is_terminal() || p == SessionPhase::Idle,
    ensures
        !spec_allowed(p, q),
{
}

/// No transition enters the idle or the preparing phase; only `begin` and `reset` do.
pub proof fn lemma_no_entry_to_start(p: SessionPhase, q: SessionPhase)
    requires
        q == SessionPhase::Idle || q == SessionPhase::Preparing,
    ensures
        !spec_allowed(p, q),
{
}

/// Every active phase may fail.
pub proof fn lemma_active_may_fail(p: SessionPhase)
    requires
        p.spec_is_active(),
    ensures
        spec_allowed(p, SessionPhase::Failed),
{
}

/// Only a recording (or a recovering) session can be paused, and a paused
/// session resumes only to recording.
pub proof fn lemma_pause_edges(p: SessionPhase)
    ensures
        spec_allowed(p, SessionPhase::Paused) <==> (p == SessionPhase::Recording || p
            == SessionPhase::Recovering),
        spec_allowed(SessionPhase::Paused, p) <==> (p == SessionPhase::Recording || p
            == SessionPhase::Stopping || p == SessionPhase::Failed || p == SessionPhase::Recovering),
{
}

/// Every allowed transition starts in an active phase.
pub proof fn lemma_transitions_start_active(p: SessionPhase, q: SessionPhase)
    requires
        spec_allowed(p, q),
    ensures
        p.spec_is_active(),
        q != p,
{
}

#[derive(Clone, Debug, PartialEq, Eq)]
pub struct SessionSnapshot {
    pub session_id: Option<SessionId>,
    pub phase: SessionPhase,
    pub output: Option<String>,
    pub started_realtime_ms: Option<u64>,
    pub first_frame_monotonic_us: Option<u64>,
    pub paused: bool,
    pub last_error: Option<String>,
    pub warnings: Vec<String>,
    pub target_summary: Option<String>,
    pub profile: Option<String>,
    pub desktop_audio: bool,
    pub microphone: bool,
    pub webcam_summary: Option<String>,
}

impl SessionSnapshot {
    pub open spec fn is_default(self) -> bool {
        &&& self.session_id is None
        &&& self.phase == SessionPhase::Idle
        &&& self.output is None
        &&& self.started_realtime_ms is None
        &&& self.first_frame_monotonic_us is None
        &&& !self.paused
        &&& self.last_error is None
        &&& self.warnings@.len() == 0
        &&& self.target_summary is None
        &&& self.profile is None
        &&& !self.desktop_audio
        &&& !self.microphone
        &&& self.webcam_summary is None
    }
}

impl Default for SessionSnapshot {
    fn default() -> (s: Self)
        ensures
            s.is_default(),
    {
        SessionSnapshot {
            session_id: None,
            phase: SessionPhase::Idle,
            output: None,
            started_realtime_ms: None,
            first_frame_monotonic_us: None,
            paused: false,
            last_error: None,
            warnings: Vec::new(),
            target_summary: None,
            profile: None,
            desktop_audio: false,
            microphone: false,
            webcam_summary: None,
        }
    }
}

pub open spec fn any_desktop(tracks: Seq<Seq<AudioSource>>) -> bool {
    exists|i: int, j: int| 0 <= i < tracks.len() && 0 <= j < tracks[i].len() && #[trigger] tracks[i][j].spec_is_desktop()
}

pub open spec fn any_microphone(tracks: Seq<Seq<AudioSource>>) -> bool {
    exists|i: int, j: int| 0 <= i < tracks.len() && 0 <= j < tracks[i].len() && #[trigger] tracks[i][j].spec_is_microphone()
}

/// `CODEC/EXTENSION` shown as a session's profile.
pub open spec fn profile_label(e: EvaluatedSpec) -> Seq<char> {
    codec_name(e.codec) + "/"@ + container_extension(e.spec.container)
}

fn scan_audio(tracks: &Vec<crate::domain::AudioTrack>) -> (r: (bool, bool))
    ensures
        r.0 == any_desktop(tracks.deep_view()),
        r.1 == any_microphone(tracks.deep_view()),
{
    let mut desktop = false;
    let mut microphone = false;
    let mut i: usize = 0;
    while i < tracks.len()
        invariant
            i <= tracks@.len(),
            desktop == exists|a: int, b: int| 0 <= a < i && 0 <= b < tracks.deep_view()[a].len()
                && #[trigger] tracks.deep_view()[a][b].spec_is_desktop(),
            microphone == exists|a: int, b: int| 0 <= a < i && 0 <= b < tracks.deep_view()[a].len()
                && #[trigger] tracks.deep_view()[a][b].spec_is_microphone(),
        decreases tracks@.len() - i,
    {
        let sources = &tracks[i].sources;
        assert(tracks.deep_view()[i as int] == sources@);
        let mut j: usize = 0;
        let ghost d0 = desktop;
        let ghost m0 = microphone;
        while j < sources.len()
            invariant
                j <= sources@.len(),
                tracks.deep_view()[i as int] == sources@,
                desktop == (d0 || exists|b: int| 0 <= b < j && #[trigger] sources@[b].spec_is_desktop()),
                microphone == (m0 || exists|b: int| 0 <= b < j && #[trigger] sources@[b].spec_is_microphone()),
            decreases sources@.len() - j,
        {
            if sources[j].is_desktop() {
                desktop = true;
            }
            if sources[j].is_microphone() {
                microphone = true;
            }
            j = j + 1;
        }
        i = i + 1;
    }
    (desktop, microphone)
}

impl SessionSnapshot {
    pub fn apply_evaluated(&mut self, evaluated: &EvaluatedSpec)
        ensures
            final(self).target_summary matches Some(t) && t@ == target_summary(evaluated.spec.target),
            final(self).profile matches Some(p) && p@ == profile_label(*evaluated),
            final(self).desktop_audio == any_desktop(evaluated.spec.audio_tracks.deep_view()),
            final(self).microphone == any_microphone(evaluated.spec.audio_tracks.deep_view()),
            match evaluated.spec.webcam {
                Some(w) => final(self).webcam_summary matches Some(s) && s@ == webcam_summary(w),
                None => final(self).webcam_summary is None,
            },
            final(self).session_id == old(self).session_id,
            final(self).phase == old(self).phase,
            final(self).output == old(self).output,
            final(self).started_realtime_ms == old(self).started_realtime_ms,
            final(self).first_frame_monotonic_us == old(self).first_frame_monotonic_us,
            final(self).paused == old(self).paused,
            final(self).last_error == old(self).last_error,
            final(self).warnings@ == old(self).warnings@,
    {
        self.target_summary = Some(evaluated.spec.target.summary());
        let mut label: Vec<char> = Vec::new();
        push_str(&mut label, evaluated.codec.as_gsr_value());
        push_str(&mut label, "/");
        push_str(&mut label, evaluated.spec.container.extension());
        self.profile = Some(crate::text::string_from(label.as_slice()));
        let (desktop, microphone) = scan_audio(&evaluated.spec.audio_tracks);
        self.desktop_audio = desktop;
        self.microphone = microphone;
        self.webcam_summary = match &evaluated.spec.webcam {
            Some(w) => Some(w.summary()),
            None => None,
        };
    }

    pub fn from_record(record: &SessionRecord) -> (s: Self)
        ensures
            s.session_id == Some(record.session_id),
            s.phase == record.phase,
            s.output matches Some(o) && o@ == record.final_output@,
            s.started_realtime_ms == Some(record.created_unix_ms),
            s.first_frame_monotonic_us is None,
            s.paused == (record.phase == SessionPhase::Paused),
            s.last_error == record.last_error,
            s.warnings@ == record.warnings@,
            match record.evaluated {
                Some(e) => {
                    &&& s.target_summary matches Some(t) && t@ == target_summary(e.spec.target)
                    &&& s.profile matches Some(p) && p@ == profile_label(e)
                    &&& s.desktop_audio == any_desktop(e.spec.audio_tracks.deep_view())
                    &&& s.microphone == any_microphone(e.spec.audio_tracks.deep_view())
                    &&& match e.spec.webcam {
                        Some(w) => s.webcam_summary matches Some(x) && x@ == webcam_summary(w),
                        None => s.webcam_summary is None,
                    }
                },
                None => s.target_summary is None && s.profile is None && !s.desktop_audio
                    && !s.microphone && s.webcam_summary is None,
            },
    {
        let mut snapshot = SessionSnapshot {
            session_id: Some(record.session_id),
            phase: record.phase,
            output: Some(record.final_output.clone()),
            started_realtime_ms: Some(record.created_unix_ms),
            first_frame_monotonic_us: None,
            paused: record.phase == SessionPhase::Paused,
            last_error: crate::text::copy_opt_string(&record.last_error),
            warnings: crate::text::copy_strings(&record.warnings),
            target_summary: None,
            profile: None,
            desktop_audio: false,
            microphone: false,
            webcam_summary: None,
        };
        if let Some(evaluated) = &record.evaluated {
            snapshot.apply_evaluated(evaluated);
        }
        snapshot
    }
}

pub const DURABLE_RECORD_SCHEMA_VERSION: u32 = 1;

#[derive(Clone, Debug, PartialEq, Eq)]
pub struct SessionRecord {
    pub schema_version: u32,
    pub session_id: SessionId,
    pub phase: SessionPhase,
    pub operation_generation: u64,
    pub unit_name: Option<String>,
    pub runtime_directory: String,
    pub gsr_ipc_socket: String,
    pub first_frame_timestamp: String,
    pub staging_output: String,
    pub final_output: String,
    pub evaluated: Option<EvaluatedSpec>,
    pub created_unix_ms: u64,
    pub updated_unix_ms: u64,
    pub last_error: Option<String>,
    pub warnings: Vec<String>,
}

impl SessionRecord {
    pub fn new(session_id: SessionId, final_output: String, now_unix_ms: u64) -> (r: Self)
        ensures
            r.schema_version == DURABLE_RECORD_SCHEMA_VERSION,
            r.session_id == session_id,
            r.phase == SessionPhase::Preparing,
            r.operation_generation == 1,
            r.unit_name is None,
            r.runtime_directory@.len() == 0 && r.gsr_ipc_socket@.len() == 0,
            r.first_frame_timestamp@.len() == 0 && r.staging_output@.len() == 0,
            r.final_output == final_output,
            r.evaluated is None,
            r.created_unix_ms == now_unix_ms && r.updated_unix_ms == now_unix_ms,
            r.last_error is None,
            r.warnings@.len() == 0,
    {
        SessionRecord {
            schema_version: DURABLE_RECORD_SCHEMA_VERSION,
            session_id,
            phase: SessionPhase::Preparing,
            operation_generation: 1,
            unit_name: None,
            runtime_directory: String::new(),
            gsr_ipc_socket: String::new(),
            first_frame_timestamp: String::new(),
            staging_output: String::new(),
            final_output,
            evaluated: None,
            created_unix_ms: now_unix_ms,
            updated_unix_ms: now_unix_ms,
            last_error: None,
            warnings: Vec::new(),
        }
    }
}

#[derive(Clone, Debug, PartialEq, Eq)]
pub enum TransitionError {
    SessionAlreadyActive(SessionPhase),
    Invalid { current: SessionPhase, next: SessionPhase },
    CannotReset(SessionPhase),
}

/// The single owner of the current session's phase.
#[derive(Clone, Debug)]
pub struct SessionMachine {
    snapshot: SessionSnapshot,
}

impl SessionMachine {
    /// The machine's invariant: the paused flag mirrors the phase, and a
    /// session identifier is held exactly when the machine is not idle.
    pub closed spec fn well_formed(self) -> bool {
        &&& self.snapshot.paused == (self.snapshot.phase == SessionPhase::Paused)
        &&& (self.snapshot.phase == SessionPhase::Idle) == (self.snapshot.session_id is None)
    }

    pub closed spec fn view_snapshot(self) -> SessionSnapshot {
        self.snapshot
    }

    pub fn new() -> (m: Self)
        ensures
            m.well_formed(),
            m.view_snapshot().is_default(),
    {
        SessionMachine { snapshot: SessionSnapshot::default() }
    }

    pub fn snapshot(&self) -> (s: &SessionSnapshot)
        requires
            self.well_formed(),
        ensures
            *s == self.view_snapshot(),
            s.paused == (s.phase == SessionPhase::Paused),
            (s.phase == SessionPhase::Idle) == (s.session_id is None),
    {
        &self.snapshot
    }

    pub fn begin(&mut self, session_id: SessionId, output: String) -> (r: Result<(), TransitionError>)
        requires
            old(self).well_formed(),
        ensures
            final(self).well_formed(),
            old(self).view_snapshot().phase != SessionPhase::Idle ==> r == Err::<(), TransitionError>(
                TransitionError::SessionAlreadyActive(old(self).view_snapshot().phase),
            ) && final(self).view_snapshot() == old(self).view_snapshot(),
            old(self).view_snapshot().phase == SessionPhase::Idle ==> r is Ok && ({
                let s = final(self).view_snapshot();
                &&& s.session_id == Some(session_id)
                &&& s.phase == SessionPhase::Preparing
                &&& s.output == Some(output)
                &&& s.started_realtime_ms is None && s.first_frame_monotonic_us is None
                &&& !s.paused && s.last_error is None && s.warnings@.len() == 0
                &&& s.target_summary is None && s.profile is None
                &&& !s.desktop_audio && !s.microphone && s.webcam_summary is None
            }),
    {
        if self.snapshot.phase != SessionPhase::Idle {
            return Err(TransitionError::SessionAlreadyActive(self.snapshot.phase));
        }
        let mut snapshot = SessionSnapshot::default();
        snapshot.session_id = Some(session_id);
        snapshot.phase = SessionPhase::Preparing;
        snapshot.output = Some(output);
        self.snapshot = snapshot;
        Ok(())
    }

    pub fn transition(&mut self, next: SessionPhase) -> (r: Result<(), TransitionError>)
        requires
            old(self).well_formed(),
        ensures
            final(self).well_formed(),
            !spec_allowed(old(self).view_snapshot().phase, next) ==> r == Err::<(), TransitionError>(
                TransitionError::Invalid { current: old(self).view_snapshot().phase, next },
            ) && final(self).view_snapshot() == old(self).view_snapshot(),
            spec_allowed(old(self).view_snapshot().phase, next) ==> r is Ok && final(self).view_snapshot()
                == (SessionSnapshot {
                phase: next,
                paused: next == SessionPhase::Paused,
                ..old(self).view_snapshot()
            }),
    {
        let current = self.snapshot.phase;
        if !allowed(current, next) {
            return Err(TransitionError::Invalid { current, next });
        }
        self.snapshot.phase = next;
        self.snapshot.paused = next == SessionPhase::Paused;
        Ok(())
    }

    pub fn record_error(&mut self, message: String)
        requires
            old(self).well_formed(),
        ensures
            final(self).well_formed(),
            final(self).view_snapshot() == (SessionSnapshot {
                last_error: Some(message),
                ..old(self).view_snapshot()
            }),
    {
        self.snapshot.last_error = Some(message);
    }

    pub fn push_warning(&mut self, message: String)
        requires
            old(self).well_formed(),
        ensures
            final(self).well_formed(),
            final(self).view_snapshot().warnings@ == old(self).view_snapshot().warnings@.push(message),
            final(self).view_snapshot().phase == old(self).view_snapshot().phase,
            final(self).view_snapshot().session_id == old(self).view_snapshot().session_id,
            final(self).view_snapshot().paused == old(self).view_snapshot().paused,
            final(self).view_snapshot().last_error == old(self).view_snapshot().last_error,
    {
        self.snapshot.warnings.push(message);
    }

    /// Clear a terminal session after clients have observed it.
    pub fn reset(&mut self) -> (r: Result<(), TransitionError>)
        requires
            old(self).well_formed(),
        ensures
            final(self).well_formed(),
            !old(self).view_snapshot().phase.spec_is_terminal() ==> r == Err::<(), TransitionError>(
                TransitionError::CannotReset(old(self).view_snapshot().phase),
            ) && final(self).view_snapshot() == old(self).view_snapshot(),
            old(self).view_snapshot().phase.spec_is_terminal() ==> r is Ok
                && final(self).view_snapshot().is_default(),
    {
        if !self.snapshot.phase.is_terminal() {
            return Err(TransitionError::CannotReset(self.snapshot.phase));
        }
        self.snapshot = SessionSnapshot::default();
        Ok(())
    }
}

impl Default for SessionMachine {
    fn default() -> (m: Self)
        ensures
            m.well_formed(),
            m.view_snapshot().is_default(),
    {
        SessionMachine::new()
    }
}

} // verus!
