use omarec::coordinator::{
    after_recorder_stop, finish_step, first_frame, launch_outcome, launch_recovery, pause_step,
    reattach_phase, recovery_plan, require_session, resume_step, single_active, startup_guard,
    stop_plan, CoordinatorError, FinishStep, LaunchOutcome, RecoveryPlan, StopFollowUp, StopPlan,
};
use omarec::first_frame::FirstFrameTimestamp;
use omarec::ids::SessionId;
use omarec::state::{allowed, SessionPhase};
use omarec::supervisor::UnitState;

#[test]
fn controls_of_active_sessions_follow_the_transition_table() {
    for phase in SessionPhase::all() {
        if !phase.is_active() {
            continue;
        }
        match stop_plan(phase) {
            StopPlan::Cancel => assert!(allowed(phase, SessionPhase::Cancelled)),
            StopPlan::Stop => assert!(allowed(phase, SessionPhase::Stopping)),
            StopPlan::Nothing => {}
        }
        if pause_step(phase) == Ok(true) {
            assert!(allowed(phase, SessionPhase::Paused));
        }
        if resume_step(phase) == Ok(true) {
            assert!(allowed(phase, SessionPhase::Recording));
        }
        assert!(allowed(phase, SessionPhase::Failed));
    }
    assert_eq!(stop_plan(SessionPhase::Preparing), StopPlan::Cancel);
    assert_eq!(stop_plan(SessionPhase::Finalizing), StopPlan::Nothing);
    assert_eq!(pause_step(SessionPhase::Paused), Ok(false));
    assert_eq!(
        resume_step(SessionPhase::Launching),
        Err(CoordinatorError::InvalidState(SessionPhase::Launching))
    );
}

#[test]
fn recovery_never_starts_a_second_unit() {
    assert_eq!(recovery_plan(SessionPhase::Preparing), RecoveryPlan::Cancel);
    assert_eq!(recovery_plan(SessionPhase::Launching), RecoveryPlan::CheckLaunch);
    assert_eq!(launch_recovery(Ok(UnitState::Active)), SessionPhase::Recovering);
    assert_eq!(launch_recovery(Ok(UnitState::Failed)), SessionPhase::Cancelled);
    assert_eq!(
        reattach_phase(SessionPhase::Paused, Ok(UnitState::Active)),
        Ok(SessionPhase::Paused)
    );
    assert_eq!(
        reattach_phase(SessionPhase::Recording, Ok(UnitState::Inactive)),
        Ok(SessionPhase::Failed)
    );
    assert_eq!(finish_step(false, true), FinishStep::Promote);
    assert_eq!(finish_step(true, true), FinishStep::Complete);
    assert_eq!(finish_step(false, false), FinishStep::Fail);
}

#[test]
fn readiness_and_launch_decisions() {
    assert_eq!(startup_guard(true, true, 1, 2), Err(CoordinatorError::Shutdown));
    assert_eq!(startup_guard(false, true, 1, 2), Err(CoordinatorError::Cancelled));
    assert_eq!(startup_guard(false, false, 1, 2), Err(CoordinatorError::StaleGeneration));
    assert_eq!(startup_guard(false, false, 2, 2), Ok(()));
    assert_eq!(
        first_frame(true, Some("monotonic_microsec\trealtime_microsec\n".to_owned())),
        Ok(None)
    );
    assert!(matches!(
        first_frame(true, Some("not-a-timestamp".to_owned())),
        Err(CoordinatorError::MalformedTimestamp(_))
    ));
    assert_eq!(first_frame(false, Some("1 2".to_owned())), Ok(None));
    let stamp = FirstFrameTimestamp { monotonic_us: 1000, realtime_us: 2000 };
    assert_eq!(launch_outcome(Ok(stamp), 3, 3), LaunchOutcome::Recording(1000));
    assert_eq!(launch_outcome(Ok(stamp), 4, 3), LaunchOutcome::Stale);
    assert_eq!(launch_outcome(Err(CoordinatorError::Cancelled), 3, 3), LaunchOutcome::Cancelled);
    assert_eq!(
        after_recorder_stop(Err(CoordinatorError::StartupTimeout), true),
        StopFollowUp::Fallback
    );
    assert_eq!(
        after_recorder_stop(Ok("/tmp/a.mp4".to_owned()), false),
        StopFollowUp::Saved("/tmp/a.mp4".to_owned())
    );
}

#[test]
fn stale_session_id_is_refused() {
    let current = SessionId::from_u128(1);
    let stale = SessionId::from_u128(0x99);
    let error = require_session(Some(current), stale).unwrap_err();
    assert_eq!(error.code(), "session_mismatch");
    assert_eq!(require_session(None, stale), Err(CoordinatorError::NoActiveSession));
    assert!(matches!(single_active(2), Err(CoordinatorError::Store(_))));
    assert_eq!(single_active(1), Ok(true));
}
