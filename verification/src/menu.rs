//! The recording menu's content: which actions it offers in each state, how
//! they are labelled, the status lines above them, and the command each
//! action runs. Drawing the window and running the command are the
//! caller's part.

use vstd::prelude::*;
use crate::decimal::{dec, pad_zero};
use crate::ids::uuid_text;
use crate::state::{SessionPhase, SessionSnapshot};
use crate::text::{owned, push_str, texts};

verus! {

#[derive(Clone, Copy, Debug, PartialEq, Eq, Structural)]
pub enum MenuAction {
    StartRegion,
    StartFullscreen,
    StartWebcam,
    PauseToggle,
    Stop,
    TrimLast,
    OpenFolder,
}

pub open spec fn action_label(a: MenuAction, paused: bool) -> Seq<char> {
    match a {
        MenuAction::StartRegion => "Record region or window"@,
        MenuAction::StartFullscreen => "Fullscreen with desktop audio"@,
        MenuAction::StartWebcam => "Region with webcam and microphone"@,
        MenuAction::PauseToggle => if paused {
            "Resume"@
        } else {
            "Pause"@
        },
        MenuAction::Stop => "Stop"@,
        MenuAction::TrimLast => "Trim last recording in Omacut"@,
        MenuAction::OpenFolder => "Open recordings folder"@,
    }
}

pub open spec fn action_caption(a: MenuAction, paused: bool) -> Seq<char> {
    match a {
        MenuAction::StartRegion => "Region"@,
        MenuAction::StartFullscreen => "Fullscreen"@,
        MenuAction::StartWebcam => "Webcam"@,
        MenuAction::PauseToggle => if paused {
            "Resume"@
        } else {
            "Pause"@
        },
        MenuAction::Stop => "Stop"@,
        MenuAction::TrimLast => "Trim"@,
        MenuAction::OpenFolder => "Folder"@,
    }
}

/// Nerd-font glyphs; the folder action has none.
pub open spec fn action_icon(a: MenuAction, paused: bool) -> Seq<char> {
    match a {
        MenuAction::StartRegion => "\u{f0a6d}"@,
        MenuAction::StartFullscreen => "\u{f0379}"@,
        MenuAction::StartWebcam => "\u{f0100}"@,
        MenuAction::PauseToggle => if paused {
            "\u{f040a}"@
        } else {
            "\u{f03e4}"@
        },
        MenuAction::Stop => "\u{f0666}"@,
        MenuAction::TrimLast => "\u{f0190}"@,
        MenuAction::OpenFolder => ""@,
    }
}

impl MenuAction {
    pub fn label(self, paused: bool) -> (s: &'static str)
        ensures
            s@ == action_label(self, paused),
    {
        match self {
            MenuAction::StartRegion => "Record region or window",
            MenuAction::StartFullscreen => "Fullscreen with desktop audio",
            MenuAction::StartWebcam => "Region with webcam and microphone",
            MenuAction::PauseToggle => if paused {
                "Resume"
            } else {
                "Pause"
            },
            MenuAction::Stop => "Stop",
            MenuAction::TrimLast => "Trim last recording in Omacut",
            MenuAction::OpenFolder => "Open recordings folder",
        }
    }

    pub fn caption(self, paused: bool) -> (s: &'static str)
        ensures
            s@ == action_caption(self, paused),
    {
        match self {
            MenuAction::StartRegion => "Region",
            MenuAction::StartFullscreen => "Fullscreen",
            MenuAction::StartWebcam => "Webcam",
            MenuAction::PauseToggle => if paused {
                "Resume"
            } else {
                "Pause"
            },
            MenuAction::Stop => "Stop",
            MenuAction::TrimLast => "Trim",
            MenuAction::OpenFolder => "Folder",
        }
    }

    pub fn icon(self, paused: bool) -> (s: &'static str)
        ensures
            s@ == action_icon(self, paused),
    {
        match self {
            MenuAction::StartRegion => "\u{f0a6d}",
            MenuAction::StartFullscreen => "\u{f0379}",
            MenuAction::StartWebcam => "\u{f0100}",
            MenuAction::PauseToggle => if paused {
                "\u{f040a}"
            } else {
                "\u{f03e4}"
            },
            MenuAction::Stop => "\u{f0666}",
            MenuAction::TrimLast => "\u{f0190}",
            MenuAction::OpenFolder => "",
        }
    }
}

/// While recording: pause and stop; otherwise the three ways to start. With
/// a saved recording, trimming it and opening its folder follow.
pub open spec fn menu_actions(active: bool, saved: bool) -> Seq<MenuAction> {
    (if active {
        seq![MenuAction::PauseToggle, MenuAction::Stop]
    } else {
        seq![MenuAction::StartRegion, MenuAction::StartFullscreen, MenuAction::StartWebcam]
    }) + (if saved {
        seq![MenuAction::TrimLast, MenuAction::OpenFolder]
    } else {
        Seq::empty()
    })
}

pub fn actions(active: bool, saved: bool) -> (r: Vec<MenuAction>)
    ensures
        r@ == menu_actions(active, saved),
{
    let mut items: Vec<MenuAction> = Vec::new();
    if active {
        items.push(MenuAction::PauseToggle);
        items.push(MenuAction::Stop);
    } else {
        items.push(MenuAction::StartRegion);
        items.push(MenuAction::StartFullscreen);
        items.push(MenuAction::StartWebcam);
    }
    if saved {
        items.push(MenuAction::TrimLast);
        items.push(MenuAction::OpenFolder);
    }
    assert(items@ =~= menu_actions(active, saved));
    items
}

/// The keybind pill has no room for trimming or the folder.
pub fn compact_actions(active: bool) -> (r: Vec<MenuAction>)
    ensures
        r@ == menu_actions(active, false),
{
    actions(active, false)
}

pub open spec fn phase_label_text(p: SessionPhase) -> Seq<char> {
    match p {
        SessionPhase::Recording => "Recording"@,
        SessionPhase::Paused => "Paused"@,
        SessionPhase::Idle => "Ready"@,
        SessionPhase::Preparing => "preparing"@,
        SessionPhase::Launching => "launching"@,
        SessionPhase::Stopping => "stopping"@,
        SessionPhase::Finalizing => "finalizing"@,
        SessionPhase::Recovering => "recovering"@,
        SessionPhase::Completed => "completed"@,
        SessionPhase::Cancelled => "cancelled"@,
        SessionPhase::Failed => "failed"@,
    }
}

/// The same words the status bar shows.
pub fn phase_label(phase: SessionPhase) -> (s: &'static str)
    ensures
        s@ == phase_label_text(phase),
{
    match phase {
        SessionPhase::Recording => "Recording",
        SessionPhase::Paused => "Paused",
        SessionPhase::Idle => "Ready",
        SessionPhase::Preparing => "preparing",
        SessionPhase::Launching => "launching",
        SessionPhase::Stopping => "stopping",
        SessionPhase::Finalizing => "finalizing",
        SessionPhase::Recovering => "recovering",
        SessionPhase::Completed => "completed",
        SessionPhase::Cancelled => "cancelled",
        SessionPhase::Failed => "failed",
    }
}

/// `H:MM:SS` from an hour on, `M:SS` below.
pub open spec fn elapsed_text(ms: u64) -> Seq<char> {
    let total = ms / 1000;
    let hours = total / 3600;
    let minutes = (total % 3600) / 60;
    let seconds = total % 60;
    if hours > 0 {
        dec(hours as nat) + ":"@ + pad_zero(dec(minutes as nat), 2) + ":"@ + pad_zero(
            dec(seconds as nat),
            2,
        )
    } else {
        dec(minutes as nat) + ":"@ + pad_zero(dec(seconds as nat), 2)
    }
}

pub fn format_elapsed(ms: u64) -> (s: String)
    ensures
        s@ == elapsed_text(ms),
{
    let total = ms / 1000;
    let hours = total / 3600;
    let minutes = (total % 3600) / 60;
    let seconds = total % 60;
    let mut v: Vec<char> = Vec::new();
    if hours > 0 {
        crate::decimal::push_dec(&mut v, hours);
        push_str(&mut v, ":");
        crate::decimal::push_padded(&mut v, minutes, 2);
        push_str(&mut v, ":");
        crate::decimal::push_padded(&mut v, seconds, 2);
    } else {
        crate::decimal::push_dec(&mut v, minutes);
        push_str(&mut v, ":");
        crate::decimal::push_padded(&mut v, seconds, 2);
    }
    assert(v@ =~= elapsed_text(ms));
    crate::text::string_from(v.as_slice())
}

/// The state line: the phase, and while recording or paused the time since
/// the session started, when the clock is known.
pub open spec fn subtitle_text(s: SessionSnapshot, now_ms: Option<u64>) -> Seq<char> {
    if (s.phase == SessionPhase::Recording || s.phase == SessionPhase::Paused)
        && s.started_realtime_ms is Some && now_ms is Some {
        phase_label_text(s.phase) + " \u{2014} "@ + elapsed_text(
            (if now_ms->0 >= s.started_realtime_ms->0 {
                now_ms->0 - s.started_realtime_ms->0
            } else {
                0
            }) as u64,
        )
    } else {
        phase_label_text(s.phase)
    }
}

pub fn subtitle(snapshot: &SessionSnapshot, now_ms: Option<u64>) -> (s: String)
    ensures
        s@ == subtitle_text(*snapshot, now_ms),
{
    let label = phase_label(snapshot.phase);
    if snapshot.phase == SessionPhase::Recording || snapshot.phase == SessionPhase::Paused {
        if let Some(started) = snapshot.started_realtime_ms {
            if let Some(now) = now_ms {
                let elapsed = format_elapsed(now.saturating_sub(started));
                let mut v: Vec<char> = Vec::new();
                push_str(&mut v, label);
                push_str(&mut v, " \u{2014} ");
                push_str(&mut v, elapsed.as_str());
                assert(v@ =~= subtitle_text(*snapshot, now_ms));
                return crate::text::string_from(v.as_slice());
            }
        }
    }
    owned(label)
}

pub open spec fn on_off(b: bool) -> Seq<char> {
    if b {
        "on"@
    } else {
        "off"@
    }
}

pub open spec fn nonblank(o: Option<String>) -> bool {
    o matches Some(t) && t@.len() > 0
}

/// The lines under the state: target and audio while a session is active,
/// then the last error.
pub open spec fn detail_lines(s: SessionSnapshot) -> Seq<Seq<char>> {
    (if s.phase.spec_is_active() {
        (if nonblank(s.target_summary) {
            seq!["Target: "@ + s.target_summary->0@]
        } else {
            Seq::empty()
        }) + seq![
            "Desktop audio "@ + on_off(s.desktop_audio) + " \u{b7} Microphone "@ + on_off(
                s.microphone,
            ) + (if nonblank(s.webcam_summary) {
                " \u{b7} Webcam"@
            } else {
                Seq::empty()
            }),
        ]
    } else {
        Seq::empty()
    }) + (if nonblank(s.last_error) {
        seq![s.last_error->0@]
    } else {
        Seq::empty()
    })
}

fn on_off_str(b: bool) -> (s: &'static str)
    ensures
        s@ == on_off(b),
{
    if b {
        "on"
    } else {
        "off"
    }
}

fn is_nonblank(o: &Option<String>) -> (b: bool)
    ensures
        b == nonblank(*o),
{
    match o {
        Some(t) => !t.as_str().is_empty(),
        None => false,
    }
}

pub fn details(snapshot: &SessionSnapshot) -> (r: Vec<String>)
    ensures
        texts(r@) == detail_lines(*snapshot),
{
    let mut lines: Vec<String> = Vec::new();
    if snapshot.phase.is_active() {
        if is_nonblank(&snapshot.target_summary) {
            let mut t: Vec<char> = Vec::new();
            push_str(&mut t, "Target: ");
            push_str(&mut t, snapshot.target_summary.as_ref().unwrap().as_str());
            lines.push(crate::text::string_from(t.as_slice()));
        }
        let mut audio: Vec<char> = Vec::new();
        push_str(&mut audio, "Desktop audio ");
        push_str(&mut audio, on_off_str(snapshot.desktop_audio));
        push_str(&mut audio, " \u{b7} Microphone ");
        push_str(&mut audio, on_off_str(snapshot.microphone));
        if is_nonblank(&snapshot.webcam_summary) {
            push_str(&mut audio, " \u{b7} Webcam");
        }
        lines.push(crate::text::string_from(audio.as_slice()));
    }
    if is_nonblank(&snapshot.last_error) {
        lines.push(snapshot.last_error.as_ref().unwrap().clone());
    }
    assert(texts(lines@) =~= detail_lines(*snapshot));
    lines
}

#[derive(Clone, Copy, Debug, PartialEq, Eq, Structural)]
pub enum MenuKind {
    Card,
    Compact,
}

/// What the menu shows.
#[derive(Clone, Debug)]
pub struct MenuModel {
    pub kind: MenuKind,
    pub subtitle: String,
    pub details: Vec<String>,
    pub items: Vec<MenuAction>,
    pub paused: bool,
}

/// A recording counts as saved when the snapshot names an output other than `-`.
pub open spec fn has_saved_output(s: SessionSnapshot) -> bool {
    s.output matches Some(o) && o@ != "-"@
}

impl MenuModel {
    pub fn from_snapshot(snapshot: &SessionSnapshot, compact: bool, now_ms: Option<u64>) -> (m: Self)
        ensures
            m.kind == (if compact {
                MenuKind::Compact
            } else {
                MenuKind::Card
            }),
            m.subtitle@ == subtitle_text(*snapshot, now_ms),
            texts(m.details@) == detail_lines(*snapshot),
            m.items@ == (if compact {
                menu_actions(snapshot.phase.spec_is_active(), false)
            } else {
                menu_actions(snapshot.phase.spec_is_active(), has_saved_output(*snapshot))
            }),
            m.paused == snapshot.paused,
    {
        let saved = match &snapshot.output {
            Some(path) => !crate::text::str_eq(path.as_str(), "-"),
            None => false,
        };
        let active = snapshot.phase.is_active();
        MenuModel {
            kind: if compact {
                MenuKind::Compact
            } else {
                MenuKind::Card
            },
            subtitle: subtitle(snapshot, now_ms),
            details: details(snapshot),
            items: if compact {
                compact_actions(active)
            } else {
                actions(active, saved)
            },
            paused: snapshot.paused,
        }
    }
}

/// The digit keys pick the first five items.
pub fn digit_index(digit: u32) -> (r: Option<usize>)
    ensures
        1 <= digit <= 5 ==> r == Some((digit - 1) as usize),
        !(1 <= digit <= 5) ==> r is None,
{
    if 1 <= digit && digit <= 5 {
        Some((digit - 1) as usize)
    } else {
        None
    }
}

/// Which program an action runs.
#[derive(Clone, Copy, Debug, PartialEq, Eq, Structural)]
pub enum MenuProgram {
    /// The desktop's capture dispatcher.
    Dispatcher,
    /// This client.
    Client,
    Omacut,
    XdgOpen,
}

/// The command an action runs: the dispatcher's start and stop intents, the
/// client's pause toggle for the current session, the editor on the saved
/// file, or the file manager on its folder (`recordings` when nothing is saved).
pub fn action_command(action: MenuAction, snapshot: &SessionSnapshot, recordings: &str) -> (r:
    Result<(MenuProgram, Vec<String>), crate::cli::CliError>)
    ensures
        match action {
            MenuAction::StartRegion => r matches Ok((p, a)) && p == MenuProgram::Dispatcher
                && a@.len() == 0,
            MenuAction::StartFullscreen => r matches Ok((p, a)) && p == MenuProgram::Dispatcher
                && texts(a@) == seq!["--fullscreen"@, "--with-desktop-audio"@],
            MenuAction::StartWebcam => r matches Ok((p, a)) && p == MenuProgram::Dispatcher
                && texts(a@) == seq![
                    "--with-webcam"@,
                    "--with-desktop-audio"@,
                    "--with-microphone-audio"@,
                ],
            MenuAction::PauseToggle => r matches Ok((p, a)) && p == MenuProgram::Client && texts(a@)
                == seq!["pause"@, "--toggle"@] + (match snapshot.session_id {
                    Some(id) => seq!["--session"@, uuid_text(id.value() as nat)],
                    None => Seq::empty(),
                }),
            MenuAction::Stop => r matches Ok((p, a)) && p == MenuProgram::Dispatcher && texts(a@)
                == seq!["--stop"@],
            MenuAction::TrimLast => match snapshot.output {
                Some(o) => r matches Ok((p, a)) && p == MenuProgram::Omacut && texts(a@) == seq![o@],
                None => r matches Err(crate::cli::CliError::InvalidArguments(m)) && m@
                    == "there is no saved recording to trim"@,
            },
            MenuAction::OpenFolder => r matches Ok((p, a)) && p == MenuProgram::XdgOpen && texts(a@)
                == seq![
                    match snapshot.output {
                        Some(o) => match crate::pathname::path_parent(o@) {
                            Some(d) => d,
                            None => recordings@,
                        },
                        None => recordings@,
                    },
                ],
        },
{
    match action {
        MenuAction::StartRegion => Ok((MenuProgram::Dispatcher, Vec::new())),
        MenuAction::StartFullscreen => {
            let a = vec![owned("--fullscreen"), owned("--with-desktop-audio")];
            assert(texts(a@) =~= seq!["--fullscreen"@, "--with-desktop-audio"@]);
            Ok((MenuProgram::Dispatcher, a))
        },
        MenuAction::StartWebcam => {
            let a = vec![
                owned("--with-webcam"),
                owned("--with-desktop-audio"),
                owned("--with-microphone-audio"),
            ];
            assert(texts(a@) =~= seq![
                "--with-webcam"@,
                "--with-desktop-audio"@,
                "--with-microphone-audio"@,
            ]);
            Ok((MenuProgram::Dispatcher, a))
        },
        MenuAction::PauseToggle => {
            let mut a = vec![owned("pause"), owned("--toggle")];
            if let Some(id) = snapshot.session_id {
                a.push(owned("--session"));
                a.push(id.to_string());
            }
            assert(texts(a@) =~= seq!["pause"@, "--toggle"@] + (match snapshot.session_id {
                Some(id) => seq!["--session"@, uuid_text(id.value() as nat)],
                None => Seq::empty(),
            }));
            Ok((MenuProgram::Client, a))
        },
        MenuAction::Stop => {
            let a = vec![owned("--stop")];
            assert(texts(a@) =~= seq!["--stop"@]);
            Ok((MenuProgram::Dispatcher, a))
        },
        MenuAction::TrimLast => match &snapshot.output {
            Some(o) => {
                let a = vec![o.clone()];
                assert(texts(a@) =~= seq![o@]);
                Ok((MenuProgram::Omacut, a))
            },
            None => Err(crate::cli::CliError::InvalidArguments(owned("there is no saved recording to trim"))),
        },
        MenuAction::OpenFolder => {
            let folder = match &snapshot.output {
                Some(o) => match crate::pathname::parent(o.as_str()) {
                    Some(d) => d,
                    None => owned(recordings),
                },
                None => owned(recordings),
            };
            let a = vec![folder];
            assert(texts(a@) =~= seq![a@[0]@]);
            Ok((MenuProgram::XdgOpen, a))
        },
    }
}

} // verus!
