use omarec::menu::{actions, compact_actions, format_elapsed, phase_label, MenuAction};
use omarec::state::SessionPhase;

#[test]
fn idle_menu_lists_start_intents() {
    let labels: Vec<_> = actions(false, false).into_iter().map(|action| action.label(false)).collect();
    assert_eq!(
        labels,
        [
            "Record region or window",
            "Fullscreen with desktop audio",
            "Region with webcam and microphone",
        ]
    );
}

#[test]
fn recording_menu_lists_pause_and_stop() {
    let labels: Vec<_> = actions(true, true).into_iter().map(|action| action.label(false)).collect();
    assert_eq!(labels, ["Pause", "Stop", "Trim last recording in Omacut", "Open recordings folder"]);
    assert_eq!(MenuAction::PauseToggle.label(true), "Resume");
    assert_eq!(MenuAction::PauseToggle.icon(true), "\u{f040a}");
}

#[test]
fn compact_menu_omits_trim_and_folder() {
    let labels: Vec<_> =
        compact_actions(false).into_iter().map(|action| action.caption(false)).collect();
    assert_eq!(labels, ["Region", "Fullscreen", "Webcam"]);
    let recording: Vec<_> =
        compact_actions(true).into_iter().map(|action| action.caption(false)).collect();
    assert_eq!(recording, ["Pause", "Stop"]);
}

#[test]
fn completed_phase_matches_the_bar_subtitle() {
    assert_eq!(phase_label(SessionPhase::Completed), "completed");
    assert_eq!(phase_label(SessionPhase::Idle), "Ready");
    assert_eq!(format_elapsed(65_000), "1:05");
    assert_eq!(format_elapsed(3_661_000), "1:01:01");
}

#[test]
fn idle_menu_with_saved_recording_offers_trim() {
    let labels: Vec<_> = actions(false, true).into_iter().map(|action| action.label(false)).collect();
    assert_eq!(labels.len(), 5);
    assert_eq!(labels[3], "Trim last recording in Omacut");
    assert_eq!(format_elapsed(0), "0:00");
    assert_eq!(format_elapsed(59_999), "0:59");
}
