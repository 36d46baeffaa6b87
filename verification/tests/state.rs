use omarec::ids::SessionId;
use omarec::state::{allowed, SessionMachine, SessionPhase};
use omarec::state::SessionPhase as P;

#[test]
fn happy_path_is_explicit() {
    let mut machine = SessionMachine::new();
    machine.begin(SessionId::new([1; 10]), "capture.mp4".to_owned()).unwrap();
    for phase in [
        SessionPhase::Launching,
        SessionPhase::Recording,
        SessionPhase::Paused,
        SessionPhase::Recording,
        SessionPhase::Stopping,
        SessionPhase::Finalizing,
        SessionPhase::Completed,
    ] {
        machine.transition(phase).unwrap();
    }
    machine.reset().unwrap();
    assert_eq!(machine.snapshot().phase, SessionPhase::Idle);
}

#[test]
fn pause_before_recording_is_rejected() {
    let mut machine = SessionMachine::new();
    machine.begin(SessionId::new([1; 10]), "capture.mp4".to_owned()).unwrap();
    assert!(machine.transition(SessionPhase::Paused).is_err());
}

#[test]
fn stop_during_launch_can_cancel() {
    let mut machine = SessionMachine::new();
    machine.begin(SessionId::new([1; 10]), "capture.mp4".to_owned()).unwrap();
    machine.transition(SessionPhase::Launching).unwrap();
    machine.transition(SessionPhase::Cancelled).unwrap();
    assert!(machine.snapshot().phase.is_terminal());
}

#[test]
fn transition_table_matches_production_function() {
    let allowed_pairs = [
        (P::Preparing, P::Launching),
        (P::Preparing, P::Cancelled),
        (P::Preparing, P::Failed),
        (P::Launching, P::Recording),
        (P::Launching, P::Stopping),
        (P::Launching, P::Cancelled),
        (P::Launching, P::Failed),
        (P::Launching, P::Recovering),
        (P::Recording, P::Paused),
        (P::Recording, P::Stopping),
        (P::Recording, P::Failed),
        (P::Recording, P::Recovering),
        (P::Paused, P::Recording),
        (P::Paused, P::Stopping),
        (P::Paused, P::Failed),
        (P::Paused, P::Recovering),
        (P::Stopping, P::Finalizing),
        (P::Stopping, P::Completed),
        (P::Stopping, P::Cancelled),
        (P::Stopping, P::Failed),
        (P::Stopping, P::Recovering),
        (P::Finalizing, P::Completed),
        (P::Finalizing, P::Failed),
        (P::Recovering, P::Recording),
        (P::Recovering, P::Paused),
        (P::Recovering, P::Stopping),
        (P::Recovering, P::Finalizing),
        (P::Recovering, P::Cancelled),
        (P::Recovering, P::Failed),
    ];
    for current in SessionPhase::all() {
        for next in SessionPhase::all() {
            let expected = allowed_pairs.contains(&(current, next));
            assert_eq!(allowed(current, next), expected, "transition {current:?} -> {next:?}");
        }
    }
}

#[test]
fn second_begin_is_rejected_while_a_session_is_active() {
    let mut machine = SessionMachine::new();
    machine.begin(SessionId::from_u128(1), "a.mp4".to_owned()).unwrap();
    assert!(machine.begin(SessionId::from_u128(2), "b.mp4".to_owned()).is_err());
    assert_eq!(machine.snapshot().session_id, Some(SessionId::from_u128(1)));
    assert_eq!(machine.snapshot().phase, SessionPhase::Preparing);
}

#[test]
fn pause_flag_follows_the_phase() {
    let mut machine = SessionMachine::new();
    machine.begin(SessionId::from_u128(3), "a.mp4".to_owned()).unwrap();
    machine.transition(SessionPhase::Launching).unwrap();
    machine.transition(SessionPhase::Recording).unwrap();
    machine.transition(SessionPhase::Paused).unwrap();
    assert!(machine.snapshot().paused);
    machine.transition(SessionPhase::Recording).unwrap();
    assert!(!machine.snapshot().paused);
    assert!(machine.reset().is_err());
}
