//! Per-session systemd user services: the recorder runs in its own unit so
//! that systemd owns its cgroup. The recorder's IPC is the normal control
//! path; systemd is the fallback and the recovery path.

use vstd::prelude::*;
use crate::domain::PlannedCommand;
use crate::ids::{uuid_text, SessionId};
use crate::text::{owned, push_str, str_eq, texts};

verus! {

#[derive(Clone, Copy, Debug, PartialEq, Eq, Structural)]
pub enum UnitState {
    Active,
    Inactive,
    Failed,
}

impl Default for UnitState {
    fn default() -> (s: Self)
        ensures
            s == UnitState::Inactive,
    {
        UnitState::Inactive
    }
}

#[derive(Clone, Debug, PartialEq, Eq)]
pub enum SupervisorError {
    /// A systemd command could not be started; the system's message.
    Spawn(String),
    /// No answer within this many seconds.
    Timeout(u64),
    Rejected { code: Option<i32>, stderr: String },
}

#[derive(Clone, Debug)]
pub struct SystemdSupervisor {
    systemd_run_binary: String,
    systemctl_binary: String,
    journalctl_binary: String,
    timeout_secs: u64,
}

/// `omarec-session-ID.service`.
pub open spec fn unit_text(id: SessionId) -> Seq<char> {
    "omarec-session-"@ + uuid_text(id.value() as nat) + ".service"@
}

/// Each session runs in a unit of its own: distinct sessions get distinct unit names.
pub proof fn lemma_units_are_per_session(a: SessionId, b: SessionId)
    requires
        a != b,
    ensures
        unit_text(a) != unit_text(b),
{
    if unit_text(a) == unit_text(b) {
        let ua = uuid_text(a.value() as nat);
        let ub = uuid_text(b.value() as nat);
        crate::ids::lemma_uuid_text_len(a.value() as nat);
        crate::ids::lemma_uuid_text_len(b.value() as nat);
        reveal_strlit("omarec-session-");
        assert(unit_text(a).subrange(15, 51) =~= ua);
        assert(unit_text(b).subrange(15, 51) =~= ub);
        crate::ids::lemma_uuid_text_injective(a.value(), b.value());
        crate::ids::lemma_session_id_by_value(a, b);
    }
}

/// The variables a recorder unit may inherit: display, session and GPU
/// selection. Nothing else reaches the unit.
pub open spec fn allowed_key(k: Seq<char>) -> bool {
    k == "WAYLAND_DISPLAY"@ || k == "XDG_RUNTIME_DIR"@ || k == "XDG_SESSION_TYPE"@ || k
        == "XDG_SESSION_ID"@ || k == "XDG_CURRENT_DESKTOP"@ || k == "DISPLAY"@ || k == "HOME"@ || k
        == "LANG"@ || k == "LC_ALL"@ || k == "HYPRLAND_INSTANCE_SIGNATURE"@ || k == "DRI_PRIME"@
        || k == "__NV_PRIME_RENDER_OFFLOAD"@ || k == "__VK_LAYER_NV_optimus"@ || k
        == "VK_ICD_FILENAMES"@ || k == "LIBVA_DRIVER_NAME"@
}

pub open spec fn env_view(v: Seq<(String, String)>) -> Seq<(Seq<char>, Seq<char>)> {
    v.map_values(|p: (String, String)| (p.0@, p.1@))
}

/// The allowed entries, in order.
pub open spec fn allowed_entries(es: Seq<(Seq<char>, Seq<char>)>) -> Seq<(Seq<char>, Seq<char>)>
    decreases es.len(),
{
    if es.len() == 0 {
        Seq::empty()
    } else if allowed_key(es.last().0) {
        allowed_entries(es.drop_last()).push(es.last())
    } else {
        allowed_entries(es.drop_last())
    }
}

/// The unit's settings: started as `Type=exec`, never restarted, stopped with
/// SIGINT so the recorder finalises the file, killed after twenty seconds,
/// output to the journal. The unit is kept after it ends (no `--collect`).
pub open spec fn run_arguments(unit: Seq<char>, program: Seq<char>, arguments: Seq<Seq<char>>) -> Seq<
    Seq<char>,
> {
    seq![
        "--user"@,
        "--unit="@ + unit,
        "--quiet"@,
        "--property=Type=exec"@,
        "--property=Restart=no"@,
        "--property=KillSignal=SIGINT"@,
        "--property=TimeoutStopSec=20s"@,
        "--property=SendSIGKILL=yes"@,
        "--property=StandardOutput=journal"@,
        "--property=StandardError=journal"@,
        "--"@,
        program,
    ] + arguments
}

pub open spec fn unit_state_of(is_active: bool, is_failed: bool) -> UnitState {
    if is_active {
        UnitState::Active
    } else if is_failed {
        UnitState::Failed
    } else {
        UnitState::Inactive
    }
}

fn is_allowed_key(k: &str) -> (b: bool)
    ensures
        b == allowed_key(k@),
{
    str_eq(k, "WAYLAND_DISPLAY") || str_eq(k, "XDG_RUNTIME_DIR") || str_eq(k, "XDG_SESSION_TYPE")
        || str_eq(k, "XDG_SESSION_ID") || str_eq(k, "XDG_CURRENT_DESKTOP") || str_eq(k, "DISPLAY")
        || str_eq(k, "HOME") || str_eq(k, "LANG") || str_eq(k, "LC_ALL") || str_eq(
        k,
        "HYPRLAND_INSTANCE_SIGNATURE",
    ) || str_eq(k, "DRI_PRIME") || str_eq(k, "__NV_PRIME_RENDER_OFFLOAD") || str_eq(
        k,
        "__VK_LAYER_NV_optimus",
    ) || str_eq(k, "VK_ICD_FILENAMES") || str_eq(k, "LIBVA_DRIVER_NAME")
}

/// The entries of `environment` whose keys are allowed, in order.
pub fn filter_environment(environment: &Vec<(String, String)>) -> (r: Vec<(String, String)>)
    ensures
        env_view(r@) == allowed_entries(env_view(environment@)),
{
    let ghost ev = env_view(environment@);
    let mut r: Vec<(String, String)> = Vec::new();
    let mut i: usize = 0;
    assert(ev.take(0) =~= Seq::<(Seq<char>, Seq<char>)>::empty());
    assert(env_view(r@) =~= allowed_entries(ev.take(0)));
    while i < environment.len()
        invariant
            i <= environment@.len(),
            ev == env_view(environment@),
            env_view(r@) == allowed_entries(ev.take(i as int)),
        decreases environment@.len() - i,
    {
        assert(ev.take(i as int + 1).drop_last() =~= ev.take(i as int));
        let entry = &environment[i];
        assert(ev.take(i as int + 1).last() == (entry.0@, entry.1@));
        if is_allowed_key(entry.0.as_str()) {
            let ghost before = env_view(r@);
            let k = entry.0.clone();
            let v = entry.1.clone();
            r.push((k, v));
            assert(env_view(r@) =~= before.push((entry.0@, entry.1@)));
        }
        i = i + 1;
    }
    assert(ev.take(environment@.len() as int) =~= ev);
    r
}

impl SystemdSupervisor {
    pub closed spec fn run_program(self) -> Seq<char> {
        self.systemd_run_binary@
    }

    pub closed spec fn systemctl_program(self) -> Seq<char> {
        self.systemctl_binary@
    }

    pub closed spec fn journalctl_program(self) -> Seq<char> {
        self.journalctl_binary@
    }

    pub closed spec fn timeout(self) -> u64 {
        self.timeout_secs
    }

    /// Ten seconds per systemd command; `journalctl` from the search path.
    pub fn new(systemd_run_binary: &str, systemctl_binary: &str) -> (s: Self)
        ensures
            s.run_program() == systemd_run_binary@,
            s.systemctl_program() == systemctl_binary@,
            s.journalctl_program() == "journalctl"@,
            s.timeout() == 10,
    {
        SystemdSupervisor {
            systemd_run_binary: owned(systemd_run_binary),
            systemctl_binary: owned(systemctl_binary),
            journalctl_binary: owned("journalctl"),
            timeout_secs: 10,
        }
    }

    pub fn with_journalctl(self, journalctl_binary: &str) -> (s: Self)
        ensures
            s.run_program() == self.run_program(),
            s.systemctl_program() == self.systemctl_program(),
            s.journalctl_program() == journalctl_binary@,
            s.timeout() == self.timeout(),
    {
        SystemdSupervisor { journalctl_binary: owned(journalctl_binary), ..self }
    }

    pub fn systemctl_binary(&self) -> (s: &str)
        ensures
            s@ == self.systemctl_program(),
    {
        self.systemctl_binary.as_str()
    }

    pub fn journalctl_binary(&self) -> (s: &str)
        ensures
            s@ == self.journalctl_program(),
    {
        self.journalctl_binary.as_str()
    }

    pub fn timeout_secs(&self) -> (t: u64)
        ensures
            t == self.timeout(),
    {
        self.timeout_secs
    }

    /// The unit that runs one session.
    pub fn unit_name(session_id: SessionId) -> (s: String)
        ensures
            s@ == unit_text(session_id),
    {
        let mut v: Vec<char> = Vec::new();
        push_str(&mut v, "omarec-session-");
        push_str(&mut v, session_id.to_string().as_str());
        push_str(&mut v, ".service");
        crate::text::string_from(v.as_slice())
    }

    /// An active unit is active even when it also reads as failed.
    pub fn parse_unit_state(is_active: bool, is_failed: bool) -> (s: UnitState)
        ensures
            s == unit_state_of(is_active, is_failed),
    {
        if is_active {
            UnitState::Active
        } else if is_failed {
            UnitState::Failed
        } else {
            UnitState::Inactive
        }
    }

    pub fn is_active_argv(unit: &str) -> (r: Vec<String>)
        ensures
            texts(r@) == seq!["--user"@, "is-active"@, "--quiet"@, unit@],
    {
        let r = vec![owned("--user"), owned("is-active"), owned("--quiet"), owned(unit)];
        assert(texts(r@) =~= seq!["--user"@, "is-active"@, "--quiet"@, unit@]);
        r
    }

    pub fn is_failed_argv(unit: &str) -> (r: Vec<String>)
        ensures
            texts(r@) == seq!["--user"@, "is-failed"@, "--quiet"@, unit@],
    {
        let r = vec![owned("--user"), owned("is-failed"), owned("--quiet"), owned(unit)];
        assert(texts(r@) =~= seq!["--user"@, "is-failed"@, "--quiet"@, unit@]);
        r
    }

    pub fn reset_failed_argv(unit: &str) -> (r: Vec<String>)
        ensures
            texts(r@) == seq!["--user"@, "reset-failed"@, unit@],
    {
        let r = vec![owned("--user"), owned("reset-failed"), owned(unit)];
        assert(texts(r@) =~= seq!["--user"@, "reset-failed"@, unit@]);
        r
    }

    /// `systemctl --user stop UNIT`: the fallback when the recorder's IPC does not answer.
    pub fn stop_argv(unit: &str) -> (r: Vec<String>)
        ensures
            texts(r@) == seq!["--user"@, "stop"@, unit@],
    {
        let r = vec![owned("--user"), owned("stop"), owned(unit)];
        assert(texts(r@) =~= seq!["--user"@, "stop"@, unit@]);
        r
    }

    /// The last `lines` journal lines of the unit, message text only.
    pub fn journal_argv(unit: &str, lines: u32) -> (r: Vec<String>)
        ensures
            texts(r@) == seq![
                "--user"@,
                "-u"@,
                unit@,
                "-n"@,
                crate::decimal::dec(lines as nat),
                "--no-pager"@,
                "-o"@,
                "cat"@,
            ],
    {
        let r = vec![
            owned("--user"),
            owned("-u"),
            owned(unit),
            owned("-n"),
            crate::decimal::dec_string(lines as u64),
            owned("--no-pager"),
            owned("-o"),
            owned("cat"),
        ];
        assert(texts(r@) =~= seq![
            "--user"@,
            "-u"@,
            unit@,
            "-n"@,
            crate::decimal::dec(lines as nat),
            "--no-pager"@,
            "-o"@,
            "cat"@,
        ]);
        r
    }

    /// `systemd-run` of the recorder in the session's own unit, with only the
    /// allowed part of its environment.
    pub fn plan(&self, session_id: SessionId, child: &PlannedCommand) -> (c: PlannedCommand)
        ensures
            c.program@ == self.run_program(),
            texts(c.arguments@) == run_arguments(
                unit_text(session_id),
                child.program@,
                texts(child.arguments@),
            ),
            env_view(c.environment@) == allowed_entries(env_view(child.environment@)),
    {
        let unit = Self::unit_name(session_id);
        let mut unit_arg: Vec<char> = Vec::new();
        push_str(&mut unit_arg, "--unit=");
        push_str(&mut unit_arg, unit.as_str());
        let mut arguments = vec![
            owned("--user"),
            crate::text::string_from(unit_arg.as_slice()),
            owned("--quiet"),
            owned("--property=Type=exec"),
            owned("--property=Restart=no"),
            owned("--property=KillSignal=SIGINT"),
            owned("--property=TimeoutStopSec=20s"),
            owned("--property=SendSIGKILL=yes"),
            owned("--property=StandardOutput=journal"),
            owned("--property=StandardError=journal"),
            owned("--"),
            child.program.clone(),
        ];
        let ghost head = texts(arguments@);
        assert(head =~= run_arguments(unit_text(session_id), child.program@, Seq::empty()));
        let ghost cv = texts(child.arguments@);
        let mut i: usize = 0;
        while i < child.arguments.len()
            invariant
                i <= child.arguments@.len(),
                cv == texts(child.arguments@),
                texts(arguments@) == head + cv.take(i as int),
            decreases child.arguments@.len() - i,
        {
            let ghost before = texts(arguments@);
            let a = child.arguments[i].clone();
            let ghost av = a@;
            arguments.push(a);
            assert(texts(arguments@) =~= before.push(av));
            i = i + 1;
            assert(head + cv.take(i as int) =~= (head + cv.take(i - 1)).push(cv[i - 1]));
        }
        assert(cv.take(child.arguments@.len() as int) =~= cv);
        assert(texts(arguments@) =~= run_arguments(unit_text(session_id), child.program@, cv));
        PlannedCommand {
            program: self.systemd_run_binary.clone(),
            arguments,
            environment: filter_environment(&child.environment),
        }
    }

    /// A finished systemd command: success, or a rejection with its exit
    /// code and trimmed standard error.
    pub fn command_result(success: bool, code: Option<i32>, stderr: &str) -> (r: Result<
        (),
        SupervisorError,
    >)
        ensures
            success ==> r is Ok,
            !success ==> (r matches Err(SupervisorError::Rejected { code: c, stderr: e }) && c == code
                && e@ == crate::text::trim(stderr@)),
    {
        if success {
            Ok(())
        } else {
            Err(SupervisorError::Rejected { code, stderr: crate::text::trim_str(stderr) })
        }
    }

    /// Cleanup of a unit: a unit that systemd no longer knows is already clean.
    pub fn cleanup_result(r: Result<(), SupervisorError>) -> (c: Result<(), SupervisorError>)
        ensures
            match r {
                Err(SupervisorError::Rejected { .. }) => c is Ok,
                _ => c == r,
            },
    {
        match r {
            Err(SupervisorError::Rejected { .. }) => Ok(()),
            other => other,
        }
    }

    /// One poll while waiting for a unit to end: the state when it is
    /// inactive or failed, a timeout once the deadline has passed, else
    /// `None` to poll again.
    pub fn wait_step(state: UnitState, elapsed_ms: u64, deadline_ms: u64) -> (r: Option<
        Result<UnitState, SupervisorError>,
    >)
        ensures
            state != UnitState::Active ==> r == Some(Ok::<UnitState, SupervisorError>(state)),
            state == UnitState::Active && elapsed_ms >= deadline_ms ==> r == Some(
                Err::<UnitState, SupervisorError>(SupervisorError::Timeout(deadline_ms / 1000)),
            ),
            state == UnitState::Active && elapsed_ms < deadline_ms ==> r is None,
    {
        if state != UnitState::Active {
            Some(Ok(state))
        } else if elapsed_ms >= deadline_ms {
            Some(Err(SupervisorError::Timeout(deadline_ms / 1000)))
        } else {
            None
        }
    }
}

} // verus!
