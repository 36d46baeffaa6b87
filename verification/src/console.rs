//! What the command-line client prints for the daemon's answers and events
//! when JSON is not asked for. Printing the lines is the caller's part.

use vstd::prelude::*;
use crate::decimal::dec;
use crate::gsr_command::{bool_text, shell_line};
use crate::ids::uuid_text;
use crate::protocol::{CheckStatus, DoctorCheck, Event, EventEnvelope, Response};
use crate::state::SessionPhase;
use crate::text::{join, owned, push_str, texts};

verus! {

/// How a phase reads when debug-printed: its variant name.
pub open spec fn phase_name(p: SessionPhase) -> Seq<char> {
    match p {
        SessionPhase::Idle => "Idle"@,
        SessionPhase::Preparing => "Preparing"@,
        SessionPhase::Launching => "Launching"@,
        SessionPhase::Recording => "Recording"@,
        SessionPhase::Paused => "Paused"@,
        SessionPhase::Stopping => "Stopping"@,
        SessionPhase::Finalizing => "Finalizing"@,
        SessionPhase::Recovering => "Recovering"@,
        SessionPhase::Completed => "Completed"@,
        SessionPhase::Cancelled => "Cancelled"@,
        SessionPhase::Failed => "Failed"@,
    }
}

pub open spec fn status_name(s: CheckStatus) -> Seq<char> {
    match s {
        CheckStatus::Pass => "Pass"@,
        CheckStatus::Warning => "Warning"@,
        CheckStatus::Fail => "Fail"@,
        CheckStatus::Skipped => "Skipped"@,
    }
}

pub fn phase_str(p: SessionPhase) -> (s: &'static str)
    ensures
        s@ == phase_name(p),
{
    match p {
        SessionPhase::Idle => "Idle",
        SessionPhase::Preparing => "Preparing",
        SessionPhase::Launching => "Launching",
        SessionPhase::Recording => "Recording",
        SessionPhase::Paused => "Paused",
        SessionPhase::Stopping => "Stopping",
        SessionPhase::Finalizing => "Finalizing",
        SessionPhase::Recovering => "Recovering",
        SessionPhase::Completed => "Completed",
        SessionPhase::Cancelled => "Cancelled",
        SessionPhase::Failed => "Failed",
    }
}

fn status_str(s: CheckStatus) -> (r: &'static str)
    ensures
        r@ == status_name(s),
{
    match s {
        CheckStatus::Pass => "Pass",
        CheckStatus::Warning => "Warning",
        CheckStatus::Fail => "Fail",
        CheckStatus::Skipped => "Skipped",
    }
}

/// Each text after a prefix.
pub open spec fn prefixed(prefix: Seq<char>, v: Seq<Seq<char>>) -> Seq<Seq<char>> {
    v.map_values(|t: Seq<char>| prefix + t)
}

/// A doctor check: `STATUS: ID — SUMMARY`, then `  fix: ...` when it has a remedy.
pub open spec fn check_lines(checks: Seq<DoctorCheck>) -> Seq<Seq<char>>
    decreases checks.len(),
{
    if checks.len() == 0 {
        Seq::empty()
    } else {
        let c = checks.last();
        check_lines(checks.drop_last()) + seq![
            status_name(c.status) + ": "@ + c.id@ + " \u{2014} "@ + c.summary@,
        ] + (match c.remediation {
            Some(r) => seq!["  fix: "@ + r@],
            None => Seq::empty(),
        })
    }
}

pub open spec fn opt_line(prefix: Seq<char>, o: Option<String>) -> Seq<Seq<char>> {
    match o {
        Some(t) => seq![prefix + t@],
        None => Seq::empty(),
    }
}

/// The lines printed for an answer. An error prints nothing here; it becomes
/// the command's error.
pub open spec fn response_text(r: Response) -> Seq<Seq<char>> {
    match r {
        Response::Hello { daemon_version, protocol, features } => seq![
            "omarecd "@ + daemon_version@ + ", protocol "@ + dec(protocol as nat) + "; "@ + join(
                texts(features@),
                ", "@,
            ),
        ],
        Response::Status { snapshot, .. } => seq!["state: "@ + phase_name(snapshot.phase)] + (
        match snapshot.session_id {
            Some(id) => seq!["session: "@ + uuid_text(id.value() as nat)],
            None => Seq::empty(),
        }) + opt_line("output: "@, snapshot.output) + opt_line(
            "last error: "@,
            snapshot.last_error,
        ),
        Response::Capabilities { capabilities } => seq![
            "recorder: "@ + (match capabilities.recorder_version {
                Some(v) => v@,
                None => "detected"@,
            }),
            "capture options: "@ + join(texts(capabilities.capture_options@), ", "@),
            "monitors: "@ + join(texts(capabilities.monitors@), ", "@),
            "codecs: "@ + join(texts(capabilities.codecs@), ", "@),
            "per-instance IPC: "@ + bool_text(capabilities.ipc_available),
        ],
        Response::Plan { plan } => seq![
            "preview: "@ + uuid_text(plan.preview_id.value() as nat),
            "advisory: "@ + bool_text(plan.advisory),
            "runtime: "@ + plan.runtime_directory@,
            "staging output: "@ + plan.staging_output@,
            "final output: "@ + plan.final_output@,
            "recorder: "@ + shell_line(plan.recorder.program@, texts(plan.recorder.arguments@)),
            "supervisor: "@ + shell_line(plan.supervisor.program@, texts(plan.supervisor.arguments@)),
        ] + prefixed("warning: "@, texts(plan.warnings@)),
        Response::Accepted { session_id } => seq![
            "recording session accepted: "@ + uuid_text(session_id.value() as nat),
        ],
        Response::Acknowledged => seq!["acknowledged"@],
        Response::Reloaded { config_generation } => seq![
            "config reloaded (generation "@ + dec(config_generation as nat) + ")"@,
        ],
        Response::Doctor { report } => check_lines(report.checks@),
        Response::Error { .. } => Seq::empty(),
    }
}

fn line_of(parts: Vec<char>) -> (s: String)
    ensures
        s@ == parts@,
{
    crate::text::string_from(parts.as_slice())
}

fn push_line(lines: &mut Vec<String>, s: String)
    ensures
        texts(final(lines)@) == texts(old(lines)@).push(s@),
{
    let ghost sv = s@;
    lines.push(s);
    assert(texts(lines@) =~= texts(old(lines)@).push(sv));
}

fn joined(prefix: &str, parts: &Vec<String>) -> (s: String)
    ensures
        s@ == prefix@ + join(texts(parts@), ", "@),
{
    let mut v: Vec<char> = Vec::new();
    push_str(&mut v, prefix);
    crate::text::push_joined(&mut v, parts, ", ");
    line_of(v)
}

fn two(a: &str, b: &str) -> (s: String)
    ensures
        s@ == a@ + b@,
{
    let mut v: Vec<char> = Vec::new();
    push_str(&mut v, a);
    push_str(&mut v, b);
    line_of(v)
}

fn doctor_lines(checks: &Vec<DoctorCheck>) -> (r: Vec<String>)
    ensures
        texts(r@) == check_lines(checks@),
{
    let mut lines: Vec<String> = Vec::new();
    let mut i: usize = 0;
    assert(checks@.take(0) =~= Seq::<DoctorCheck>::empty());
    while i < checks.len()
        invariant
            i <= checks@.len(),
            texts(lines@) == check_lines(checks@.take(i as int)),
        decreases checks@.len() - i,
    {
        assert(checks@.take(i as int + 1).drop_last() =~= checks@.take(i as int));
        let c = &checks[i];
        let mut v: Vec<char> = Vec::new();
        push_str(&mut v, status_str(c.status));
        push_str(&mut v, ": ");
        push_str(&mut v, c.id.as_str());
        push_str(&mut v, " \u{2014} ");
        push_str(&mut v, c.summary.as_str());
        push_line(&mut lines, line_of(v));
        if let Some(r) = &c.remediation {
            push_line(&mut lines, two("  fix: ", r.as_str()));
        }
        i = i + 1;
        assert(texts(lines@) =~= check_lines(checks@.take(i as int)));
    }
    assert(checks@.take(checks@.len() as int) =~= checks@);
    lines
}

/// The lines printed for an answer.
pub fn response_lines(response: &Response) -> (r: Vec<String>)
    ensures
        texts(r@) == response_text(*response),
{
    let mut lines: Vec<String> = Vec::new();
    match response {
        Response::Hello { daemon_version, protocol, features } => {
            let mut v: Vec<char> = Vec::new();
            push_str(&mut v, "omarecd ");
            push_str(&mut v, daemon_version.as_str());
            push_str(&mut v, ", protocol ");
            crate::decimal::push_dec(&mut v, *protocol as u64);
            push_str(&mut v, "; ");
            crate::text::push_joined(&mut v, features, ", ");
            push_line(&mut lines, line_of(v));
        },
        Response::Status { snapshot, .. } => {
            push_line(&mut lines, two("state: ", phase_str(snapshot.phase)));
            if let Some(id) = snapshot.session_id {
                push_line(&mut lines, two("session: ", id.to_string().as_str()));
            }
            if let Some(o) = &snapshot.output {
                push_line(&mut lines, two("output: ", o.as_str()));
            }
            if let Some(e) = &snapshot.last_error {
                push_line(&mut lines, two("last error: ", e.as_str()));
            }
        },
        Response::Capabilities { capabilities } => {
            let version = match &capabilities.recorder_version {
                Some(v) => v.as_str(),
                None => "detected",
            };
            push_line(&mut lines, two("recorder: ", version));
            push_line(&mut lines, joined("capture options: ", &capabilities.capture_options));
            push_line(&mut lines, joined("monitors: ", &capabilities.monitors));
            push_line(&mut lines, joined("codecs: ", &capabilities.codecs));
            push_line(
                &mut lines,
                two("per-instance IPC: ", crate::gsr_command::bool_str(capabilities.ipc_available)),
            );
        },
        Response::Plan { plan } => {
            push_line(&mut lines, two("preview: ", plan.preview_id.to_string().as_str()));
            push_line(&mut lines, two("advisory: ", crate::gsr_command::bool_str(plan.advisory)));
            push_line(&mut lines, two("runtime: ", plan.runtime_directory.as_str()));
            push_line(&mut lines, two("staging output: ", plan.staging_output.as_str()));
            push_line(&mut lines, two("final output: ", plan.final_output.as_str()));
            push_line(&mut lines, two("recorder: ", crate::gsr_command::shell_join(&plan.recorder).as_str()));
            push_line(
                &mut lines,
                two("supervisor: ", crate::gsr_command::shell_join(&plan.supervisor).as_str()),
            );
            let ghost head = texts(lines@);
            let ghost ws = texts(plan.warnings@);
            let mut i: usize = 0;
            while i < plan.warnings.len()
                invariant
                    i <= plan.warnings@.len(),
                    ws == texts(plan.warnings@),
                    texts(lines@) == head + prefixed("warning: "@, ws.take(i as int)),
                decreases plan.warnings@.len() - i,
            {
                push_line(&mut lines, two("warning: ", plan.warnings[i].as_str()));
                i = i + 1;
                assert(texts(lines@) =~= head + prefixed("warning: "@, ws.take(i as int)));
            }
            assert(ws.take(plan.warnings@.len() as int) =~= ws);
        },
        Response::Accepted { session_id } => {
            push_line(&mut lines, two("recording session accepted: ", session_id.to_string().as_str()));
        },
        Response::Acknowledged => {
            push_line(&mut lines, owned("acknowledged"));
        },
        Response::Reloaded { config_generation } => {
            let mut v: Vec<char> = Vec::new();
            push_str(&mut v, "config reloaded (generation ");
            crate::decimal::push_dec(&mut v, *config_generation);
            push_str(&mut v, ")");
            push_line(&mut lines, line_of(v));
        },
        Response::Doctor { report } => {
            lines = doctor_lines(&report.checks);
        },
        Response::Error { .. } => {},
    }
    assert(texts(lines@) =~= response_text(*response));
    lines
}

/// `#SEQUENCE ...` for an event; heartbeats print nothing.
pub open spec fn event_text(e: EventEnvelope) -> Option<Seq<char>> {
    let head = "#"@ + dec(e.sequence as nat);
    match e.event {
        Event::Snapshot { snapshot, .. } => Some(head + " state="@ + phase_name(snapshot.phase)),
        Event::StateChanged { snapshot } => Some(head + " state="@ + phase_name(snapshot.phase)),
        Event::FirstFrame { session_id } => Some(
            head + " first frame: "@ + uuid_text(session_id.value() as nat),
        ),
        Event::FileSaved { session_id, output } => Some(
            head + " saved "@ + uuid_text(session_id.value() as nat) + ": "@ + output@,
        ),
        Event::ConfigReloaded { generation } => Some(
            head + " config generation "@ + dec(generation as nat),
        ),
        Event::Lag { skipped } => Some(head + " lag skipped="@ + dec(skipped as nat)),
        Event::Warning { message, .. } => Some(head + " warning: "@ + message@),
        Event::Error { code, message, .. } => Some(head + " error "@ + code@ + ": "@ + message@),
        Event::Heartbeat => None,
    }
}

pub fn event_line(envelope: &EventEnvelope) -> (r: Option<String>)
    ensures
        crate::pathname::opt_text(r) == event_text(*envelope),
{
    let mut v: Vec<char> = Vec::new();
    push_str(&mut v, "#");
    crate::decimal::push_dec(&mut v, envelope.sequence);
    match &envelope.event {
        Event::Snapshot { snapshot, .. } | Event::StateChanged { snapshot } => {
            push_str(&mut v, " state=");
            push_str(&mut v, phase_str(snapshot.phase));
        },
        Event::FirstFrame { session_id } => {
            push_str(&mut v, " first frame: ");
            push_str(&mut v, session_id.to_string().as_str());
        },
        Event::FileSaved { session_id, output } => {
            push_str(&mut v, " saved ");
            push_str(&mut v, session_id.to_string().as_str());
            push_str(&mut v, ": ");
            push_str(&mut v, output.as_str());
        },
        Event::ConfigReloaded { generation } => {
            push_str(&mut v, " config generation ");
            crate::decimal::push_dec(&mut v, *generation);
        },
        Event::Lag { skipped } => {
            push_str(&mut v, " lag skipped=");
            crate::decimal::push_dec(&mut v, *skipped);
        },
        Event::Warning { message, .. } => {
            push_str(&mut v, " warning: ");
            push_str(&mut v, message.as_str());
        },
        Event::Error { code, message, .. } => {
            push_str(&mut v, " error ");
            push_str(&mut v, code.as_str());
            push_str(&mut v, ": ");
            push_str(&mut v, message.as_str());
        },
        Event::Heartbeat => {
            return None;
        },
    }
    Some(line_of(v))
}

} // verus!
