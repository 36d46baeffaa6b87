use omarec::ids::SessionId;
use omarec::naming::{
    explicit_plan, parse_user_dirs, reservation_step, reserve_explicit, Clock, OccupiedNames, OutputNamer,
    ReservationStep,
};
use omarec::domain::Container;

struct FixedClock(&'static str);

impl Clock for FixedClock {
    fn formatted_stamp(&self, _pattern: &str) -> String {
        self.0.to_owned()
    }
}

fn namer() -> OutputNamer {
    OutputNamer {
        directory: "/home/alice/Videos/Screenrecordings".to_owned(),
        filename_pattern: "%Y-%m-%d_%H-%M-%S".to_owned(),
        container: Container::Mp4,
    }
}

#[test]
fn preview_is_advisory_and_does_not_need_reservation() {
    let plan = namer().preview(&FixedClock("2026-08-13_23-00-00"));
    assert!(plan.advisory);
    assert_eq!(plan.final_output, "/home/alice/Videos/Screenrecordings/2026-08-13_23-00-00.mp4");
}

#[test]
fn reserve_skips_occupied_final_names() {
    let session = SessionId::from_u128(0);
    let occupied = vec!["/home/alice/Videos/Screenrecordings/2026-08-13_23-00-00.mp4".to_owned()];
    let plan = namer().reserve(&FixedClock("2026-08-13_23-00-00"), session, &occupied).unwrap();
    assert!(!plan.advisory);
    assert_eq!(plan.final_output, "/home/alice/Videos/Screenrecordings/2026-08-13_23-00-00-1.mp4");
    assert!(plan.staging_output.ends_with("/.omarec-00000000-0000-0000-0000-000000000000.part.mp4"));
}

#[test]
fn parse_user_dirs_expands_only_home() {
    let source = r#"
# comment
XDG_VIDEOS_DIR="$HOME/Videos"
XDG_PICTURES_DIR="${HOME}/Pictures"
XDG_DOWNLOAD_DIR="$UNSAFE/Downloads"
OMARCHY_SCREENRECORD_DIR="$HOME/ignored"
"#;
    let dirs = parse_user_dirs(source, "/home/alice");
    assert_eq!(dirs.get("XDG_VIDEOS_DIR").map(String::as_str), Some("/home/alice/Videos"));
    assert_eq!(dirs.get("XDG_PICTURES_DIR").map(String::as_str), Some("/home/alice/Pictures"));
    assert!(!dirs.contains_key("XDG_DOWNLOAD_DIR"));
    assert!(!dirs.contains_key("OMARCHY_SCREENRECORD_DIR"));
}

#[test]
fn reserve_plans_staging_and_timestamp_beside_the_destination() {
    let session = SessionId::from_u128(1);
    let occupied: Vec<String> = Vec::new();
    let plan = reserve_explicit("/tmp/out.mkv", session, &occupied).unwrap();
    assert_eq!(plan.final_output, "/tmp/out.mkv");
    assert_eq!(plan.staging_output, "/tmp/.omarec-00000000-0000-0000-0000-000000000001.part.mkv");
    assert_eq!(
        plan.first_frame_timestamp,
        "/tmp/.omarec-00000000-0000-0000-0000-000000000001.part.mkv.ts"
    );
    let taken = vec!["/tmp/out.mkv".to_owned()];
    let next = reserve_explicit("/tmp/out.mkv", session, &taken).unwrap();
    assert_eq!(next.final_output, "/tmp/out-1.mkv");
}

#[test]
fn a_list_of_taken_paths_is_occupied_exactly_at_its_entries() {
    let taken = vec!["/tmp/a.mp4".to_owned()];
    assert!(taken.is_occupied("/tmp/a.mp4"));
    assert!(!taken.is_occupied("/tmp/b.mp4"));
}

#[test]
fn reservation_takes_a_free_candidate_and_stops_after_the_last_suffix() {
    assert_eq!(reservation_step(0, false, false), ReservationStep::Take);
    assert_eq!(reservation_step(0, true, false), ReservationStep::Next(1));
    assert_eq!(reservation_step(5, false, true), ReservationStep::Next(6));
    assert_eq!(reservation_step(998, true, true), ReservationStep::Next(999));
    assert_eq!(reservation_step(999, true, false), ReservationStep::Exhausted);
    assert_eq!(reservation_step(999, false, false), ReservationStep::Take);
}

#[test]
fn reserve_needs_a_free_staging_path_and_gives_up_after_a_thousand() {
    let session = SessionId::from_u128(2);
    let staging = explicit_plan("/tmp/out.mp4", 0, session).staging_output;
    // Every candidate in a directory shares the session's staging name.
    assert_eq!(explicit_plan("/tmp/out.mp4", 1, session).staging_output, staging);
    assert!(reserve_explicit("/tmp/out.mp4", session, &vec![staging]).is_err());
    let mut all: Vec<String> = Vec::new();
    for k in 0..1000u32 {
        all.push(explicit_plan("/tmp/out.mp4", k, session).final_output);
    }
    assert_eq!(all[999], "/tmp/out-999.mp4");
    assert!(reserve_explicit("/tmp/out.mp4", session, &all).is_err());
    let stamp = namer().candidate_plan("2026-08-13_23-00-00", 2, session);
    assert_eq!(stamp.final_output, "/home/alice/Videos/Screenrecordings/2026-08-13_23-00-00-2.mp4");
}
