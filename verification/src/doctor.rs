//! The daemon's self-checks: which programs it needs, how a missing one is
//! reported, what the recorder probe tells, and when the report is healthy.
//! Looking programs up on disk is the caller's part.

use vstd::prelude::*;
use crate::capabilities::Capabilities;
use crate::config::Config;
use crate::domain::PostprocessMode;
use crate::protocol::{CheckStatus, DoctorCheck, DoctorReport};
use crate::text::{join, owned, push_str, texts};

verus! {

/// A check of one program: available, or missing with a remedy; a missing
/// program fails the report only when it is required.
pub open spec fn binary_check_is(
    c: DoctorCheck,
    id: Seq<char>,
    path: Seq<char>,
    available: bool,
    required: bool,
    remediation: Seq<char>,
) -> bool {
    &&& c.id@ == id
    &&& c.detail is None
    &&& if available {
        &&& c.status == CheckStatus::Pass
        &&& c.summary@ == path + " is available"@
        &&& c.remediation is None
    } else {
        &&& c.status == (if required {
            CheckStatus::Fail
        } else {
            CheckStatus::Warning
        })
        &&& c.summary@ == path + " was not found on PATH"@
        &&& c.remediation matches Some(r) && r@ == remediation
    }
}

pub fn binary_check(id: &str, path: &str, available: bool, required: bool, remediation: &str) -> (c:
    DoctorCheck)
    ensures
        binary_check_is(c, id@, path@, available, required, remediation@),
{
    let mut summary: Vec<char> = Vec::new();
    push_str(&mut summary, path);
    if available {
        push_str(&mut summary, " is available");
        DoctorCheck {
            id: owned(id),
            status: CheckStatus::Pass,
            summary: crate::text::string_from(summary.as_slice()),
            detail: None,
            remediation: None,
        }
    } else {
        push_str(&mut summary, " was not found on PATH");
        DoctorCheck {
            id: owned(id),
            status: if required {
                CheckStatus::Fail
            } else {
                CheckStatus::Warning
            },
            summary: crate::text::string_from(summary.as_slice()),
            detail: None,
            remediation: Some(owned(remediation)),
        }
    }
}

/// Which of the programs the daemon uses were found.
#[derive(Clone, Copy, Debug)]
pub struct BinaryPresence {
    pub systemd_run: bool,
    pub systemctl: bool,
    pub journalctl: bool,
    pub gsr_cli: bool,
    pub ffprobe: bool,
    pub ffmpeg: bool,
    pub hyprctl: bool,
}

/// The installation checks, in order: the runtime directory, the systemd
/// tools, the recorder's control client, the media tools, the compositor's
/// control tool, and the absence of telemetry. `ffmpeg` is required only
/// when post-processing uses it by default; `hyprctl` never is.
pub open spec fn runtime_checks_are(checks: Seq<DoctorCheck>, runtime_root: Seq<char>, config: Config, p: BinaryPresence) -> bool {
    &&& checks.len() == 9
    &&& checks[0].id@ == "xdg_runtime"@ && checks[0].status == CheckStatus::Pass
    &&& checks[0].summary@ == "runtime root: "@ + runtime_root
    &&& checks[0].detail matches Some(d) && d@ == "omarec refuses an insecure /tmp control socket fallback"@
    &&& checks[0].remediation is None
    &&& binary_check_is(checks[1], "systemd_run"@, config.binaries.systemd_run_binary@, p.systemd_run, true,
        "install systemd so `systemd-run --user` can own recording units"@)
    &&& binary_check_is(checks[2], "systemctl"@, config.binaries.systemctl_binary@, p.systemctl, true,
        "install systemd so `systemctl --user` can query exact session units"@)
    &&& binary_check_is(checks[3], "journalctl"@, config.binaries.journalctl_binary@, p.journalctl, true,
        "install systemd so doctor bundles can collect exact unit journals"@)
    &&& binary_check_is(checks[4], "gsr_cli"@, config.binaries.recorder_cli_binary@, p.gsr_cli, true,
        "install gpu-screen-recorder so `gsr-cli` can pause and stop the owned instance"@)
    &&& binary_check_is(checks[5], "ffprobe"@, config.postprocess.ffprobe_binary@, p.ffprobe, true,
        "install ffmpeg so finalization can validate a video stream"@)
    &&& binary_check_is(checks[6], "ffmpeg"@, config.postprocess.ffmpeg_binary@, p.ffmpeg,
        config.postprocess.default == PostprocessMode::OmarchyCompat,
        "install ffmpeg for Omarchy-compatible post-processing"@)
    &&& binary_check_is(checks[7], "hyprctl"@, "hyprctl"@, p.hyprctl, false,
        "install hyprland so monitor topology can be probed on this host"@)
    &&& checks[8].id@ == "telemetry"@ && checks[8].status == CheckStatus::Pass
    &&& checks[8].summary@ == "omarec has no network telemetry"@
    &&& checks[8].detail matches Some(d) && d@ == "doctor bundles stay on local disk; no metrics client is compiled in"@
    &&& checks[8].remediation is None
}

pub fn runtime_checks(runtime_root: &str, config: &Config, presence: &BinaryPresence) -> (r: Vec<DoctorCheck>)
    ensures
        runtime_checks_are(r@, runtime_root@, *config, *presence),
{
    let ffmpeg_required = config.postprocess.default == PostprocessMode::OmarchyCompat;
    let mut root: Vec<char> = Vec::new();
    push_str(&mut root, "runtime root: ");
    push_str(&mut root, runtime_root);
    let checks = vec![
        DoctorCheck {
            id: owned("xdg_runtime"),
            status: CheckStatus::Pass,
            summary: crate::text::string_from(root.as_slice()),
            detail: Some(owned("omarec refuses an insecure /tmp control socket fallback")),
            remediation: None,
        },
        binary_check(
            "systemd_run",
            config.binaries.systemd_run_binary.as_str(),
            presence.systemd_run,
            true,
            "install systemd so `systemd-run --user` can own recording units",
        ),
        binary_check(
            "systemctl",
            config.binaries.systemctl_binary.as_str(),
            presence.systemctl,
            true,
            "install systemd so `systemctl --user` can query exact session units",
        ),
        binary_check(
            "journalctl",
            config.binaries.journalctl_binary.as_str(),
            presence.journalctl,
            true,
            "install systemd so doctor bundles can collect exact unit journals",
        ),
        binary_check(
            "gsr_cli",
            config.binaries.recorder_cli_binary.as_str(),
            presence.gsr_cli,
            true,
            "install gpu-screen-recorder so `gsr-cli` can pause and stop the owned instance",
        ),
        binary_check(
            "ffprobe",
            config.postprocess.ffprobe_binary.as_str(),
            presence.ffprobe,
            true,
            "install ffmpeg so finalization can validate a video stream",
        ),
        binary_check(
            "ffmpeg",
            config.postprocess.ffmpeg_binary.as_str(),
            presence.ffmpeg,
            ffmpeg_required,
            "install ffmpeg for Omarchy-compatible post-processing",
        ),
        binary_check(
            "hyprctl",
            "hyprctl",
            presence.hyprctl,
            false,
            "install hyprland so monitor topology can be probed on this host",
        ),
        DoctorCheck {
            id: owned("telemetry"),
            status: CheckStatus::Pass,
            summary: owned("omarec has no network telemetry"),
            detail: Some(owned("doctor bundles stay on local disk; no metrics client is compiled in")),
            remediation: None,
        },
    ];
    checks
}

/// What the recorder probe tells: the recorder and its IPC when the probe
/// succeeded, or the failure with a remedy.
pub open spec fn recorder_checks_are(checks: Seq<DoctorCheck>, probe: Result<Capabilities, Seq<char>>) -> bool {
    match probe {
        Ok(c) => {
            &&& checks.len() == 2
            &&& checks[0].id@ == "gpu_screen_recorder"@ && checks[0].status == CheckStatus::Pass
            &&& checks[0].summary@ == (match c.recorder_version {
                Some(v) => "GPU Screen Recorder "@ + v@,
                None => "GPU Screen Recorder probe succeeded"@,
            })
            &&& checks[0].detail matches Some(d) && d@ == "capture options: "@ + join(texts(c.capture_options@), ", "@)
            &&& checks[0].remediation is None
            &&& checks[1].id@ == "gsr_ipc"@
            &&& checks[1].status == (if c.ipc_available { CheckStatus::Pass } else { CheckStatus::Fail })
            &&& checks[1].summary@ == (if c.ipc_available {
                "per-instance GSR IPC appears available"@
            } else {
                "gsr-cli/per-instance IPC was not detected"@
            })
            &&& checks[1].detail is None
            &&& if c.ipc_available {
                checks[1].remediation is None
            } else {
                checks[1].remediation matches Some(r) && r@ == "install the current Arch gpu-screen-recorder package (6.x target)"@
            }
        },
        Err(message) => {
            &&& checks.len() == 1
            &&& checks[0].id@ == "gpu_screen_recorder"@ && checks[0].status == CheckStatus::Fail
            &&& checks[0].summary@ == "GPU Screen Recorder probe failed"@
            &&& checks[0].detail matches Some(d) && d@ == message
            &&& checks[0].remediation matches Some(r) && r@ == "install gpu-screen-recorder from Arch Extra and verify `gpu-screen-recorder --info`"@
        },
    }
}

pub open spec fn probe_view(probe: Result<&Capabilities, String>) -> Result<Capabilities, Seq<char>> {
    match probe {
        Ok(c) => Ok(*c),
        Err(m) => Err(m@),
    }
}

/// `probe` is the refreshed probe, or the text of its error.
pub fn recorder_checks(probe: Result<&Capabilities, String>) -> (r: Vec<DoctorCheck>)
    ensures
        recorder_checks_are(r@, probe_view(probe)),
{
    match probe {
        Ok(c) => {
            let summary = match &c.recorder_version {
                Some(v) => {
                    let mut s: Vec<char> = Vec::new();
                    push_str(&mut s, "GPU Screen Recorder ");
                    push_str(&mut s, v.as_str());
                    crate::text::string_from(s.as_slice())
                },
                None => owned("GPU Screen Recorder probe succeeded"),
            };
            let mut detail: Vec<char> = Vec::new();
            push_str(&mut detail, "capture options: ");
            crate::text::push_joined(&mut detail, &c.capture_options, ", ");
            let ipc = c.ipc_available;
            vec![
                DoctorCheck {
                    id: owned("gpu_screen_recorder"),
                    status: CheckStatus::Pass,
                    summary,
                    detail: Some(crate::text::string_from(detail.as_slice())),
                    remediation: None,
                },
                DoctorCheck {
                    id: owned("gsr_ipc"),
                    status: if ipc {
                        CheckStatus::Pass
                    } else {
                        CheckStatus::Fail
                    },
                    summary: if ipc {
                        owned("per-instance GSR IPC appears available")
                    } else {
                        owned("gsr-cli/per-instance IPC was not detected")
                    },
                    detail: None,
                    remediation: if ipc {
                        None
                    } else {
                        Some(owned("install the current Arch gpu-screen-recorder package (6.x target)"))
                    },
                },
            ]
        },
        Err(message) => vec![
            DoctorCheck {
                id: owned("gpu_screen_recorder"),
                status: CheckStatus::Fail,
                summary: owned("GPU Screen Recorder probe failed"),
                detail: Some(message),
                remediation: Some(
                    owned(
                        "install gpu-screen-recorder from Arch Extra and verify `gpu-screen-recorder --info`",
                    ),
                ),
            },
        ],
    }
}

/// The report is healthy exactly when no check failed; warnings do not count.
pub fn doctor_report(checks: Vec<DoctorCheck>) -> (r: DoctorReport)
    ensures
        r.ok == forall|i: int| 0 <= i < checks@.len() ==> #[trigger] checks@[i].status != CheckStatus::Fail,
        r.checks@ == checks@,
        texts(r.redactions_applied@) == seq!["home"@, "xdg_runtime_dir"@],
{
    let mut ok = true;
    let mut i: usize = 0;
    while i < checks.len()
        invariant
            i <= checks@.len(),
            ok == forall|k: int| 0 <= k < i ==> #[trigger] checks@[k].status != CheckStatus::Fail,
        decreases checks@.len() - i,
    {
        if checks[i].status == CheckStatus::Fail {
            ok = false;
        }
        i = i + 1;
    }
    let redactions = vec![owned("home"), owned("xdg_runtime_dir")];
    assert(texts(redactions@) =~= seq!["home"@, "xdg_runtime_dir"@]);
    DoctorReport { ok, checks, redactions_applied: redactions }
}

} // verus!
