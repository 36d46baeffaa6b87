//! The session coordinator's decisions. The coordinator owns one session at
//! a time; the caller performs each supervisor, recorder and store operation
//! and hands back what it observed, and these functions say what follows.

use vstd::prelude::*;
use crate::domain::EvaluatedSpec;
use crate::first_frame::{parse_first_frame_timestamp, timestamp_of, FirstFrameTimestamp, TimestampError};
use crate::ids::SessionId;
use crate::output::OutputError;
use crate::state::{spec_allowed, SessionPhase, SessionRecord, SessionSnapshot, DURABLE_RECORD_SCHEMA_VERSION};
use crate::supervisor::UnitState;
use crate::text::owned;

verus! {

#[derive(Clone, Copy, Debug, PartialEq, Eq, Structural)]
pub enum RecorderStatus {
    Running,
    NotRunning,
}

impl Default for RecorderStatus {
    fn default() -> (s: Self)
        ensures
            s == RecorderStatus::NotRunning,
    {
        RecorderStatus::NotRunning
    }
}

#[derive(Clone, Debug, PartialEq, Eq)]
pub enum CoordinatorError {
    ActiveSession(SessionPhase),
    NoActiveSession,
    SessionMismatch { expected: SessionId, actual: SessionId },
    InvalidState(SessionPhase),
    MalformedTimestamp(TimestampError),
    StartupTimeout,
    /// The unit failed; the tail of its journal.
    UnitFailed(String),
    UnitExited,
    StaleGeneration,
    Cancelled,
    Shutdown,
    Failed(String),
    Store(String),
}

pub open spec fn coordinator_code(e: CoordinatorError) -> Seq<char> {
    match e {
        CoordinatorError::ActiveSession(_) => "active_session"@,
        CoordinatorError::NoActiveSession => "no_active_session"@,
        CoordinatorError::SessionMismatch { .. } => "session_mismatch"@,
        CoordinatorError::InvalidState(_) => "invalid_state"@,
        CoordinatorError::MalformedTimestamp(_) => "malformed_timestamp"@,
        CoordinatorError::StartupTimeout => "startup_timeout"@,
        CoordinatorError::UnitFailed(_) => "unit_failed"@,
        CoordinatorError::UnitExited => "unit_exited"@,
        CoordinatorError::StaleGeneration => "stale_generation"@,
        CoordinatorError::Cancelled => "cancelled"@,
        CoordinatorError::Shutdown => "shutdown"@,
        CoordinatorError::Failed(_) => "supervisor_failed"@,
        CoordinatorError::Store(_) => "store_failed"@,
    }
}

impl CoordinatorError {
    /// The stable code clients receive.
    pub fn code(&self) -> (s: &'static str)
        ensures
            s@ == coordinator_code(*self),
    {
        match self {
            CoordinatorError::ActiveSession(_) => "active_session",
            CoordinatorError::NoActiveSession => "no_active_session",
            CoordinatorError::SessionMismatch { .. } => "session_mismatch",
            CoordinatorError::InvalidState(_) => "invalid_state",
            CoordinatorError::MalformedTimestamp(_) => "malformed_timestamp",
            CoordinatorError::StartupTimeout => "startup_timeout",
            CoordinatorError::UnitFailed(_) => "unit_failed",
            CoordinatorError::UnitExited => "unit_exited",
            CoordinatorError::StaleGeneration => "stale_generation",
            CoordinatorError::Cancelled => "cancelled",
            CoordinatorError::Shutdown => "shutdown",
            CoordinatorError::Failed(_) => "supervisor_failed",
            CoordinatorError::Store(_) => "store_failed",
        }
    }
}

/// What an admission hands the coordinator: the evaluated specification and
/// the per-session paths.
#[derive(Clone, Debug)]
pub struct Admission {
    pub session_id: SessionId,
    pub evaluated: EvaluatedSpec,
    pub runtime_directory: String,
    pub gsr_ipc_socket: String,
    pub first_frame_timestamp: String,
    pub staging_output: String,
    pub unit_name: String,
}

/// Only one session at a time: admission is refused while one is active.
pub fn admission_allowed(current: SessionPhase) -> (r: Result<(), CoordinatorError>)
    ensures
        current.spec_is_active() ==> r == Err::<(), CoordinatorError>(
            CoordinatorError::ActiveSession(current),
        ),
        !current.spec_is_active() ==> r is Ok,
{
    if current.is_active() {
        Err(CoordinatorError::ActiveSession(current))
    } else {
        Ok(())
    }
}

/// The durable record an admission writes: `preparing`, with the admission's
/// paths and unit, its warnings, and the evaluated specification.
pub fn admission_record(admission: Admission, now_unix_ms: u64, generation: u64) -> (r: SessionRecord)
    ensures
        r.schema_version == DURABLE_RECORD_SCHEMA_VERSION,
        r.session_id == admission.session_id,
        r.phase == SessionPhase::Preparing,
        r.operation_generation == generation,
        r.unit_name == Some(admission.unit_name),
        r.runtime_directory == admission.runtime_directory,
        r.gsr_ipc_socket == admission.gsr_ipc_socket,
        r.first_frame_timestamp == admission.first_frame_timestamp,
        r.staging_output == admission.staging_output,
        r.final_output@ == admission.evaluated.spec.output@,
        r.evaluated == Some(admission.evaluated),
        r.created_unix_ms == now_unix_ms && r.updated_unix_ms == now_unix_ms,
        r.last_error is None,
        r.warnings@ == admission.evaluated.warnings@,
{
    let Admission {
        session_id,
        evaluated,
        runtime_directory,
        gsr_ipc_socket,
        first_frame_timestamp,
        staging_output,
        unit_name,
    } = admission;
    let mut record = SessionRecord::new(session_id, evaluated.spec.output.clone(), now_unix_ms);
    record.operation_generation = generation;
    record.unit_name = Some(unit_name);
    record.runtime_directory = runtime_directory;
    record.gsr_ipc_socket = gsr_ipc_socket;
    record.first_frame_timestamp = first_frame_timestamp;
    record.staging_output = staging_output;
    record.warnings = crate::text::copy_strings(&evaluated.warnings);
    record.evaluated = Some(evaluated);
    record
}

/// A request names the session it means; it must be the current one.
pub fn require_session(current: Option<SessionId>, expected: SessionId) -> (r: Result<(), CoordinatorError>)
    ensures
        match current {
            None => r == Err::<(), CoordinatorError>(CoordinatorError::NoActiveSession),
            Some(c) => if c == expected {
                r is Ok
            } else {
                r == Err::<(), CoordinatorError>(
                    CoordinatorError::SessionMismatch { expected, actual: c },
                )
            },
        },
{
    match current {
        None => Err(CoordinatorError::NoActiveSession),
        Some(c) => if c == expected {
            Ok(())
        } else {
            Err(CoordinatorError::SessionMismatch { expected, actual: c })
        },
    }
}

/// A phase change written to the stored record of the current session: the
/// new phase and time, and the last error when the session failed.
pub fn persisted_record(
    loaded: Option<SessionRecord>,
    current: SessionId,
    phase: SessionPhase,
    now_unix_ms: u64,
    last_error: Option<String>,
) -> (r: Result<SessionRecord, CoordinatorError>)
    ensures
        match loaded {
            None => r == Err::<SessionRecord, CoordinatorError>(CoordinatorError::NoActiveSession),
            Some(rec) => if rec.session_id != current {
                r == Err::<SessionRecord, CoordinatorError>(
                    CoordinatorError::SessionMismatch { expected: current, actual: rec.session_id },
                )
            } else {
                r == Ok::<SessionRecord, CoordinatorError>(
                    SessionRecord {
                        phase,
                        updated_unix_ms: now_unix_ms,
                        last_error: if phase == SessionPhase::Failed {
                            last_error
                        } else {
                            rec.last_error
                        },
                        ..rec
                    },
                )
            },
        },
{
    match loaded {
        None => Err(CoordinatorError::NoActiveSession),
        Some(mut record) => {
            if record.session_id != current {
                return Err(
                    CoordinatorError::SessionMismatch {
                        expected: current,
                        actual: record.session_id,
                    },
                );
            }
            record.phase = phase;
            record.updated_unix_ms = now_unix_ms;
            if phase == SessionPhase::Failed {
                record.last_error = last_error;
            }
            Ok(record)
        },
    }
}

/// The snapshot after a phase change was stored. Entering a terminal phase
/// also releases the unit.
pub fn apply_phase(snapshot: &mut SessionSnapshot, phase: SessionPhase) -> (cleanup: bool)
    ensures
        final(snapshot).phase == phase,
        final(snapshot).paused == (phase == SessionPhase::Paused),
        final(snapshot).session_id == old(snapshot).session_id,
        final(snapshot).output == old(snapshot).output,
        final(snapshot).last_error == old(snapshot).last_error,
        final(snapshot).first_frame_monotonic_us == old(snapshot).first_frame_monotonic_us,
        cleanup == phase.spec_is_terminal(),
{
    snapshot.phase = phase;
    snapshot.paused = phase == SessionPhase::Paused;
    phase.is_terminal()
}

/// Pausing: nothing to do when already paused; only a recording session
/// can pause. `Ok(true)` means: tell the recorder, then store `paused`.
pub fn pause_step(phase: SessionPhase) -> (r: Result<bool, CoordinatorError>)
    ensures
        phase == SessionPhase::Paused ==> r == Ok::<bool, CoordinatorError>(false),
        phase == SessionPhase::Recording ==> r == Ok::<bool, CoordinatorError>(true),
        phase != SessionPhase::Paused && phase != SessionPhase::Recording ==> r == Err::<
            bool,
            CoordinatorError,
        >(CoordinatorError::InvalidState(phase)),
{
    if phase == SessionPhase::Paused {
        return Ok(false);
    }
    if phase != SessionPhase::Recording {
        return Err(CoordinatorError::InvalidState(phase));
    }
    Ok(true)
}

/// Resuming: nothing to do when already recording; only a paused session
/// can resume. `Ok(true)` means: tell the recorder, then store `recording`.
pub fn resume_step(phase: SessionPhase) -> (r: Result<bool, CoordinatorError>)
    ensures
        phase == SessionPhase::Recording ==> r == Ok::<bool, CoordinatorError>(false),
        phase == SessionPhase::Paused ==> r == Ok::<bool, CoordinatorError>(true),
        phase != SessionPhase::Paused && phase != SessionPhase::Recording ==> r == Err::<
            bool,
            CoordinatorError,
        >(CoordinatorError::InvalidState(phase)),
{
    if phase == SessionPhase::Recording {
        return Ok(false);
    }
    if phase != SessionPhase::Paused {
        return Err(CoordinatorError::InvalidState(phase));
    }
    Ok(true)
}

/// What a stop request does in each phase.
#[derive(Clone, Copy, Debug, PartialEq, Eq, Structural)]
pub enum StopPlan {
    /// Already stopping or done: answer without acting.
    Nothing,
    /// Not yet recording: stop the unit and store `cancelled`.
    Cancel,
    /// Store `stopping`, then ask the recorder to stop.
    Stop,
}

pub open spec fn stop_plan_of(phase: SessionPhase) -> StopPlan {
    if phase == SessionPhase::Stopping || phase == SessionPhase::Finalizing || phase
        == SessionPhase::Completed {
        StopPlan::Nothing
    } else if phase == SessionPhase::Preparing || phase == SessionPhase::Launching {
        StopPlan::Cancel
    } else {
        StopPlan::Stop
    }
}

pub fn stop_plan(phase: SessionPhase) -> (p: StopPlan)
    ensures
        p == stop_plan_of(phase),
{
    match phase {
        SessionPhase::Stopping | SessionPhase::Finalizing | SessionPhase::Completed => StopPlan::Nothing,
        SessionPhase::Preparing | SessionPhase::Launching => StopPlan::Cancel,
        _ => StopPlan::Stop,
    }
}

/// What follows the recorder's answer to `stop`.
#[derive(Clone, Debug, PartialEq, Eq)]
pub enum StopFollowUp {
    /// Store `finalizing`; the recorder saved this file.
    Saved(String),
    /// The recorder did not answer and the stop is forced: stop the unit
    /// through systemd, then store `finalizing`.
    Fallback,
    Fail(CoordinatorError),
}

pub fn after_recorder_stop(reply: Result<String, CoordinatorError>, force: bool) -> (f: StopFollowUp)
    ensures
        match reply {
            Ok(saved) => f == StopFollowUp::Saved(saved),
            Err(e) => if force {
                f == StopFollowUp::Fallback
            } else {
                f == StopFollowUp::Fail(e)
            },
        },
{
    match reply {
        Ok(saved) => StopFollowUp::Saved(saved),
        Err(e) => if force {
            StopFollowUp::Fallback
        } else {
            StopFollowUp::Fail(e)
        },
    }
}

/// The systemd fallback is needed unless the unit is known to have ended.
pub fn needs_stop_fallback(state: Result<UnitState, CoordinatorError>) -> (b: bool)
    ensures
        b == !(state matches Ok(s) && (s == UnitState::Inactive || s == UnitState::Failed)),
{
    match state {
        Ok(UnitState::Inactive) | Ok(UnitState::Failed) => false,
        _ => true,
    }
}

/// Before each readiness poll: shutdown, then a stop request, then a newer
/// operation end the wait.
pub fn startup_guard(shutdown: bool, cancelled: bool, generation: u64, expected_generation: u64) -> (r:
    Result<(), CoordinatorError>)
    ensures
        shutdown ==> r == Err::<(), CoordinatorError>(CoordinatorError::Shutdown),
        !shutdown && cancelled ==> r == Err::<(), CoordinatorError>(CoordinatorError::Cancelled),
        !shutdown && !cancelled && generation != expected_generation ==> r == Err::<
            (),
            CoordinatorError,
        >(CoordinatorError::StaleGeneration),
        !shutdown && !cancelled && generation == expected_generation ==> r is Ok,
{
    if shutdown {
        return Err(CoordinatorError::Shutdown);
    }
    if cancelled {
        return Err(CoordinatorError::Cancelled);
    }
    if generation != expected_generation {
        return Err(CoordinatorError::StaleGeneration);
    }
    Ok(())
}

/// The unit must still be running while the recorder starts. A failed unit
/// reports its journal tail (empty when it could not be read).
pub fn unit_check(state: UnitState, journal: Option<String>) -> (r: Result<(), CoordinatorError>)
    ensures
        state == UnitState::Active ==> r is Ok,
        state == UnitState::Inactive ==> r == Err::<(), CoordinatorError>(
            CoordinatorError::UnitExited,
        ),
        state == UnitState::Failed ==> (r matches Err(CoordinatorError::UnitFailed(j)) && j@ == (
        match journal {
            Some(t) => t@,
            None => Seq::empty(),
        })),
{
    match state {
        UnitState::Active => Ok(()),
        UnitState::Inactive => Err(CoordinatorError::UnitExited),
        UnitState::Failed => Err(
            CoordinatorError::UnitFailed(
                match journal {
                    Some(t) => t,
                    None => String::new(),
                },
            ),
        ),
    }
}

/// What one poll learned of the first frame. Only a running recorder's
/// timestamp file counts; a file that lacks a number yet is waited for,
/// any other malformed file fails the start.
pub open spec fn first_frame_of(running: bool, source: Option<Seq<char>>) -> Result<
    Option<FirstFrameTimestamp>,
    CoordinatorError,
> {
    if running && source is Some {
        match timestamp_of(source->0) {
            Ok(t) => Ok(Some(t)),
            Err(TimestampError::MissingMonotonic) => Ok(None),
            Err(TimestampError::MissingRealtime) => Ok(None),
            Err(e) => Err(CoordinatorError::MalformedTimestamp(e)),
        }
    } else {
        Ok(None)
    }
}

pub fn first_frame(running: bool, source: Option<String>) -> (r: Result<
    Option<FirstFrameTimestamp>,
    CoordinatorError,
>)
    ensures
        r == first_frame_of(running, crate::pathname::opt_text(source)),
{
    if !running {
        return Ok(None);
    }
    match source {
        Some(text) => match parse_first_frame_timestamp(text.as_str()) {
            Ok(t) => Ok(Some(t)),
            Err(TimestampError::MissingMonotonic) => Ok(None),
            Err(TimestampError::MissingRealtime) => Ok(None),
            Err(e) => Err(CoordinatorError::MalformedTimestamp(e)),
        },
        None => Ok(None),
    }
}

/// What the end of the readiness wait leads to.
#[derive(Clone, Debug, PartialEq, Eq)]
pub enum LaunchOutcome {
    /// Store `recording` with the first frame's monotonic time.
    Recording(u64),
    /// A newer operation took over: report it, change nothing.
    Stale,
    /// Stopped before the first frame: stop the unit, store `cancelled`.
    Cancelled,
    /// Stop the unit, record the error, store `failed`.
    Failed(CoordinatorError),
}

pub fn launch_outcome(wait: Result<FirstFrameTimestamp, CoordinatorError>, generation: u64, expected_generation: u64) -> (o:
    LaunchOutcome)
    ensures
        match wait {
            Ok(t) => if generation != expected_generation {
                o == LaunchOutcome::Stale
            } else {
                o == LaunchOutcome::Recording(t.monotonic_us)
            },
            Err(CoordinatorError::Cancelled) => o == LaunchOutcome::Cancelled,
            Err(e) => o == LaunchOutcome::Failed(e),
        },
{
    match wait {
        Ok(t) => if generation != expected_generation {
            LaunchOutcome::Stale
        } else {
            LaunchOutcome::Recording(t.monotonic_us)
        },
        Err(CoordinatorError::Cancelled) => LaunchOutcome::Cancelled,
        Err(e) => LaunchOutcome::Failed(e),
    }
}

/// How a restarted daemon reconciles a stored session, by its phase.
#[derive(Clone, Copy, Debug, PartialEq, Eq, Structural)]
pub enum RecoveryPlan {
    /// Never launched: store `cancelled`.
    Cancel,
    /// Launch was under way: ask systemd whether the unit runs.
    CheckLaunch,
    /// Store `recovering`, then ask systemd whether the unit runs.
    Reattach,
    /// Store `recovering`, then finish the output from what is on disk.
    Finish,
    /// Nothing to reconcile.
    Nothing,
}

pub open spec fn recovery_plan_of(phase: SessionPhase) -> RecoveryPlan {
    match phase {
        SessionPhase::Preparing => RecoveryPlan::Cancel,
        SessionPhase::Launching => RecoveryPlan::CheckLaunch,
        SessionPhase::Recording | SessionPhase::Paused | SessionPhase::Stopping => RecoveryPlan::Reattach,
        SessionPhase::Finalizing | SessionPhase::Recovering => RecoveryPlan::Finish,
        _ => RecoveryPlan::Nothing,
    }
}

pub fn recovery_plan(phase: SessionPhase) -> (p: RecoveryPlan)
    ensures
        p == recovery_plan_of(phase),
{
    match phase {
        SessionPhase::Preparing => RecoveryPlan::Cancel,
        SessionPhase::Launching => RecoveryPlan::CheckLaunch,
        SessionPhase::Recording | SessionPhase::Paused | SessionPhase::Stopping => RecoveryPlan::Reattach,
        SessionPhase::Finalizing | SessionPhase::Recovering => RecoveryPlan::Finish,
        _ => RecoveryPlan::Nothing,
    }
}

/// An interrupted launch is recovered only when its unit is running;
/// otherwise it is cancelled. No unit is ever started again.
pub open spec fn launch_recovery_of(state: Result<UnitState, CoordinatorError>) -> SessionPhase {
    if state == Ok::<UnitState, CoordinatorError>(UnitState::Active) {
        SessionPhase::Recovering
    } else {
        SessionPhase::Cancelled
    }
}

pub fn launch_recovery(state: Result<UnitState, CoordinatorError>) -> (p: SessionPhase)
    ensures
        p == launch_recovery_of(state),
{
    match state {
        Ok(UnitState::Active) => SessionPhase::Recovering,
        _ => SessionPhase::Cancelled,
    }
}

/// A running session whose unit still runs goes back to its stored phase;
/// one whose unit ended has failed.
pub open spec fn reattach_of(recorded: SessionPhase, state: Result<UnitState, CoordinatorError>) -> Result<
    SessionPhase,
    CoordinatorError,
> {
    match state {
        Ok(UnitState::Active) => Ok(
            if recorded == SessionPhase::Paused {
                SessionPhase::Paused
            } else if recorded == SessionPhase::Stopping {
                SessionPhase::Stopping
            } else {
                SessionPhase::Recording
            },
        ),
        Ok(_) => Ok(SessionPhase::Failed),
        Err(e) => Err(e),
    }
}

pub fn reattach_phase(recorded: SessionPhase, state: Result<UnitState, CoordinatorError>) -> (r:
    Result<SessionPhase, CoordinatorError>)
    ensures
        r == reattach_of(recorded, state),
{
    match state {
        Ok(UnitState::Active) => Ok(
            if recorded == SessionPhase::Paused {
                SessionPhase::Paused
            } else if recorded == SessionPhase::Stopping {
                SessionPhase::Stopping
            } else {
                SessionPhase::Recording
            },
        ),
        Ok(_) => Ok(SessionPhase::Failed),
        Err(e) => Err(e),
    }
}

/// The controls of an active session store only phase changes that the
/// session's transition table allows: a stop cancels a session still in
/// preparation or launch and otherwise stops it, then finalises it; a pause
/// leaves only a recording session and a resume only a paused one; the end
/// of a launch records, cancels or fails it; completion from finalisation is
/// allowed; and an active session may always fail. Completion from
/// `recovering`, which `completion_allowed` also accepts, is left out: the
/// table does not list it.
pub proof fn lemma_controls_follow_transitions(p: SessionPhase)
    requires
        p.spec_is_active(),
    ensures
        stop_plan_of(p) == StopPlan::Cancel ==> spec_allowed(p, SessionPhase::Cancelled),
        stop_plan_of(p) == StopPlan::Stop ==> spec_allowed(p, SessionPhase::Stopping),
        spec_allowed(SessionPhase::Stopping, SessionPhase::Finalizing),
        p == SessionPhase::Recording ==> spec_allowed(p, SessionPhase::Paused),
        p == SessionPhase::Paused ==> spec_allowed(p, SessionPhase::Recording),
        p == SessionPhase::Launching ==> spec_allowed(p, SessionPhase::Recording) && spec_allowed(
            p,
            SessionPhase::Cancelled,
        ),
        p == SessionPhase::Finalizing ==> spec_allowed(p, SessionPhase::Completed),
        spec_allowed(p, SessionPhase::Failed),
{
}

/// A restarted daemon reconciles a stored session through allowed phase
/// changes: it cancels a session that never launched, keeps or cancels an
/// interrupted launch by its unit, and moves a running session to
/// `recovering` and from there back to its phase or to failure. A session
/// stored in finalisation or in recovery is left out: reconciliation moves
/// it to `recovering` and may complete it from there, and the table lists
/// neither change.
pub proof fn lemma_recovery_follows_transitions(p: SessionPhase, state: Result<UnitState, CoordinatorError>)
    requires
        p.spec_is_active(),
        p != SessionPhase::Finalizing,
        p != SessionPhase::Recovering,
    ensures
        recovery_plan_of(p) == RecoveryPlan::Cancel ==> spec_allowed(p, SessionPhase::Cancelled),
        recovery_plan_of(p) == RecoveryPlan::CheckLaunch ==> spec_allowed(p, launch_recovery_of(state)),
        recovery_plan_of(p) == RecoveryPlan::Reattach ==> spec_allowed(p, SessionPhase::Recovering) && (
        reattach_of(p, state) matches Ok(q) ==> spec_allowed(SessionPhase::Recovering, q)),
        spec_allowed(SessionPhase::Recovering, SessionPhase::Failed),
{
}

/// Finishing an interrupted finalisation from what is on disk.
#[derive(Clone, Copy, Debug, PartialEq, Eq, Structural)]
pub enum FinishStep {
    /// The destination exists: store `completed`.
    Complete,
    /// Only the staging file exists: promote it.
    Promote,
    /// Neither exists: store `failed`.
    Fail,
}

pub fn finish_step(final_exists: bool, staging_exists: bool) -> (s: FinishStep)
    ensures
        final_exists ==> s == FinishStep::Complete,
        !final_exists && staging_exists ==> s == FinishStep::Promote,
        !final_exists && !staging_exists ==> s == FinishStep::Fail,
{
    if final_exists {
        FinishStep::Complete
    } else if staging_exists {
        FinishStep::Promote
    } else {
        FinishStep::Fail
    }
}

/// A finished session must be in finalisation or recovery to complete.
pub fn completion_allowed(phase: SessionPhase) -> (r: Result<(), CoordinatorError>)
    ensures
        (phase == SessionPhase::Finalizing || phase == SessionPhase::Recovering) ==> r is Ok,
        !(phase == SessionPhase::Finalizing || phase == SessionPhase::Recovering) ==> r == Err::<
            (),
            CoordinatorError,
        >(CoordinatorError::InvalidState(phase)),
{
    if phase != SessionPhase::Finalizing && phase != SessionPhase::Recovering {
        return Err(CoordinatorError::InvalidState(phase));
    }
    Ok(())
}

/// The stored session a store may hold as active: none, one, or an error
/// when more than one is not terminal.
pub fn single_active(active_count: usize) -> (r: Result<bool, CoordinatorError>)
    ensures
        active_count == 0 ==> r == Ok::<bool, CoordinatorError>(false),
        active_count == 1 ==> r == Ok::<bool, CoordinatorError>(true),
        active_count > 1 ==> (r matches Err(CoordinatorError::Store(m)) && m@
            == "multiple non-terminal durable session records exist"@),
{
    if active_count == 0 {
        Ok(false)
    } else if active_count == 1 {
        Ok(true)
    } else {
        Err(CoordinatorError::Store(owned("multiple non-terminal durable session records exist")))
    }
}

/// Reads the first-frame timestamp file. What the file holds is decided
/// here: a missing or blank file is not written yet.
#[derive(Clone, Copy, Debug)]
pub struct FsTimestamps;

impl FsTimestamps {
    /// `contents` is the file's text, or `None` when it does not exist.
    pub fn document(contents: Option<String>) -> (r: Option<String>)
        ensures
            match contents {
                Some(t) => if crate::text::trim(t@).len() == 0 {
                    r is None
                } else {
                    r == Some(t)
                },
                None => r is None,
            },
    {
        match contents {
            Some(t) => if crate::text::trim_str(t.as_str()).as_str().is_empty() {
                None
            } else {
                Some(t)
            },
            None => None,
        }
    }
}

} // verus!
