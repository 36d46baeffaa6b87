use omarec::domain::PlannedCommand;
use omarec::ids::SessionId;
use omarec::supervisor::{filter_environment, SystemdSupervisor, UnitState};

fn child(environment: Vec<(String, String)>) -> PlannedCommand {
    PlannedCommand {
        program: "gpu-screen-recorder".to_owned(),
        arguments: vec!["-w".to_owned(), "DP-1".to_owned()],
        environment,
    }
}

#[test]
fn plan_uses_exec_type_and_sigint_fallback() {
    let id = SessionId::new([3; 10]);
    let plan = SystemdSupervisor::new("systemd-run", "systemctl").plan(id, &child(Vec::new()));
    assert_eq!(plan.program, "systemd-run");
    assert!(plan.arguments.iter().any(|arg| arg == "--property=Type=exec"));
    assert!(plan.arguments.iter().any(|arg| arg == "--property=KillSignal=SIGINT"));
    assert!(!plan.arguments.iter().any(|arg| arg == "--collect"));
}

#[test]
fn plan_allows_only_display_session_and_gpu_environment() {
    let id = SessionId::parse("00000000-0000-0000-0000-000000000000").unwrap();
    let plan = SystemdSupervisor::new("systemd-run", "systemctl").plan(
        id,
        &child(vec![
            ("WAYLAND_DISPLAY".to_owned(), "wayland-1".to_owned()),
            ("SECRET".to_owned(), "nope".to_owned()),
            ("PATH".to_owned(), "/tmp/evil".to_owned()),
            ("DRI_PRIME".to_owned(), "1".to_owned()),
        ]),
    );
    assert_eq!(
        plan.environment,
        [
            ("WAYLAND_DISPLAY".to_owned(), "wayland-1".to_owned()),
            ("DRI_PRIME".to_owned(), "1".to_owned()),
        ]
    );
    assert_eq!(plan.arguments[1], "--unit=omarec-session-00000000-0000-0000-0000-000000000000.service");
    let tail: Vec<&str> = plan.arguments.iter().rev().take(3).map(String::as_str).collect();
    assert_eq!(tail, ["DP-1", "-w", "gpu-screen-recorder"]);
}

#[test]
fn unit_state_prefers_active_over_failed() {
    assert_eq!(SystemdSupervisor::parse_unit_state(true, true), UnitState::Active);
    assert_eq!(SystemdSupervisor::parse_unit_state(false, true), UnitState::Failed);
    assert_eq!(SystemdSupervisor::parse_unit_state(false, false), UnitState::Inactive);
}

#[test]
fn cleanup_and_journal_target_the_exact_unit() {
    let unit = "omarec-session-00000000-0000-0000-0000-000000000000.service";
    assert_eq!(SystemdSupervisor::reset_failed_argv(unit), ["--user", "reset-failed", unit]);
    let journal = SystemdSupervisor::journal_argv(unit, 50);
    assert!(journal.contains(&"-u".to_owned()));
    assert!(journal.contains(&unit.to_owned()));
    assert!(!journal.iter().any(|arg| arg.contains("gpu-screen-recorder")));
    assert!(!SystemdSupervisor::is_active_argv(unit).iter().any(|arg| arg == "--collect"));
}

#[test]
fn unit_name_is_derived_from_the_session_id() {
    let id = SessionId::from_u128(0xab);
    assert_eq!(
        SystemdSupervisor::unit_name(id),
        "omarec-session-00000000-0000-0000-0000-0000000000ab.service"
    );
    assert_eq!(
        SystemdSupervisor::journal_argv("u.service", 50),
        ["--user", "-u", "u.service", "-n", "50", "--no-pager", "-o", "cat"]
    );
}

#[test]
fn filter_environment_keeps_xdg_and_gpu_entries_in_order() {
    let kept = filter_environment(&vec![
        ("XDG_RUNTIME_DIR".to_owned(), "/run/user/1000".to_owned()),
        ("PATH".to_owned(), "/usr/bin".to_owned()),
        ("DISPLAY".to_owned(), ":0".to_owned()),
    ]);
    assert_eq!(
        kept,
        [
            ("XDG_RUNTIME_DIR".to_owned(), "/run/user/1000".to_owned()),
            ("DISPLAY".to_owned(), ":0".to_owned()),
        ]
    );
}

#[test]
fn distinct_sessions_get_distinct_units() {
    let a = SystemdSupervisor::unit_name(SessionId::from_u128(1));
    let b = SystemdSupervisor::unit_name(SessionId::from_u128(1 << 64));
    assert_ne!(a, b);
}
