use omarec::json::Json;
use omarec::output::{
    check_dash_names, check_promotion_names, dash_prefixed, duration_text, media_from_json, probe_document, Ffprobe, MediaInfo,
    OutputError,
};
use omarec::postprocess::{compat_arguments, PostprocessError};

#[test]
fn ffprobe_argv_places_end_of_options_before_the_path() {
    let args = Ffprobe::arguments("clip.mp4");
    assert_eq!(args.last().map(String::as_str), Some("clip.mp4"));
    let separator = args.iter().position(|argument| argument == "--").unwrap();
    assert_eq!(separator, args.len() - 2);
    assert!(!args[..separator].iter().any(|argument| argument == "clip.mp4"));
}

#[test]
fn dash_prefixed_names_are_rejected() {
    assert!(dash_prefixed("/tmp/-evil.mp4"));
    assert!(!dash_prefixed("/tmp/out.mp4"));
    assert!(matches!(
        check_dash_names("/tmp/-evil.mp4", "/tmp/out.mp4"),
        Err(OutputError::DashPrefixedName)
    ));
    assert!(check_dash_names("/tmp/.omarec-part.mp4", "/tmp/out.mp4").is_ok());
}

fn duration_seconds(text: &str) -> Result<u64, OutputError> {
    let seconds: f64 = text.parse().map_err(|_| OutputError::InvalidMedia)?;
    if !seconds.is_finite() || !(0.0..=86_400.0).contains(&seconds) {
        return Err(OutputError::InvalidMedia);
    }
    Ok(seconds.floor() as u64)
}

fn parse_report(source: &str) -> Result<MediaInfo, OutputError> {
    let document = probe_document(source)?;
    let duration = duration_text(&document).as_deref().map(duration_seconds).transpose();
    media_from_json(&document, duration)
}

const VIDEO_REPORT: &str = r#"{
  "streams": [
    {"index": 0, "codec_name": "aac", "codec_type": "audio"},
    {"index": 1, "codec_name": "h264", "codec_type": "video", "width": 1920, "height": 1080}
  ],
  "format": {"format_name": "mov,mp4,m4a,3gp,3g2,mj2", "duration": "1.250000", "nb_streams": 2}
}"#;

const AUDIO_ONLY_REPORT: &str = r#"{
  "streams": [{"index": 0, "codec_name": "opus", "codec_type": "audio"}],
  "format": {"format_name": "mov,mp4,m4a,3gp,3g2,mj2", "duration": "1.000000"}
}"#;

#[test]
fn ffprobe_json_requires_a_video_stream() {
    let info = parse_report(VIDEO_REPORT).unwrap();
    assert!(info.has_video);
    assert_eq!(info.duration_seconds, Some(1));
    assert!(info.format_name.contains("mp4"));
    let error = parse_report(AUDIO_ONLY_REPORT).unwrap_err();
    assert!(matches!(error, OutputError::InvalidMedia));
}

#[test]
fn report_that_is_no_json_is_an_invalid_probe() {
    assert!(matches!(probe_document("{\"streams\": ["), Err(OutputError::InvalidProbe(_))));
    assert!(matches!(parse_report("not json"), Err(OutputError::InvalidProbe(_))));
}

#[test]
fn report_is_read_as_plain_values() {
    let document = probe_document(r#"{"a": [1, "x", null, true], "b": {"c": "d"}}"#).unwrap();
    assert_eq!(
        document.get("a"),
        Some(&Json::Array(vec![
            Json::Number("1".to_owned()),
            Json::Text("x".to_owned()),
            Json::Null,
            Json::Bool(true),
        ]))
    );
    assert_eq!(document.get("b").and_then(|b| b.get("c")).and_then(Json::as_text), Some("d"));
    assert_eq!(document.get("z"), None);
    assert_eq!(Json::Text("t".to_owned()).get("a"), None);
}

#[test]
fn report_needs_streams_format_and_a_format_name() {
    let no_streams = r#"{"format": {"format_name": "mp4"}}"#;
    let streams_not_a_list = r#"{"streams": {"codec_type": "video"}, "format": {"format_name": "mp4"}}"#;
    let no_format = r#"{"streams": [{"codec_type": "video"}]}"#;
    let empty_name = r#"{"streams": [{"codec_type": "video"}], "format": {"format_name": ""}}"#;
    let name_not_text = r#"{"streams": [{"codec_type": "video"}], "format": {"format_name": 4}}"#;
    for report in [no_streams, streams_not_a_list, no_format, empty_name, name_not_text] {
        assert!(matches!(parse_report(report), Err(OutputError::InvalidMedia)), "{report}");
    }
    let no_duration = r#"{"streams": [{"codec_type": "video"}], "format": {"format_name": "matroska"}}"#;
    let info = parse_report(no_duration).unwrap();
    assert_eq!(info.format_name, "matroska");
    assert_eq!(info.duration_seconds, None);
}

#[test]
fn duration_error_comes_after_the_media_checks() {
    let bad_duration = r#"{"streams": [{"codec_type": "video"}], "format": {"format_name": "mp4", "duration": "x"}}"#;
    let document = probe_document(bad_duration).unwrap();
    assert_eq!(duration_text(&document), Some("x".to_owned()));
    let failed = Err(OutputError::ProbeTimeout);
    assert!(matches!(media_from_json(&document, failed), Err(OutputError::ProbeTimeout)));
    let audio = probe_document(AUDIO_ONLY_REPORT).unwrap();
    assert!(matches!(media_from_json(&audio, Err(OutputError::ProbeTimeout)), Err(OutputError::InvalidMedia)));
    let info = media_from_json(&document, Ok(Some(42))).unwrap();
    assert_eq!(info, MediaInfo { has_video: true, duration_seconds: Some(42), format_name: "mp4".to_owned() });
}

#[test]
fn dash_prefixed_paths_are_rejected_before_spawn() {
    assert!(matches!(
        compat_arguments("/tmp/-a.mp4", "/tmp/b.mp4"),
        Err(PostprocessError::DashPrefixedName)
    ));
    assert!(matches!(
        compat_arguments("/tmp/a.mp4", "/tmp/-b.mp4"),
        Err(PostprocessError::DashPrefixedName)
    ));
}

#[test]
fn promotion_directories_compare_as_paths() {
    let staging = "/tmp/d/.omarec-1.part.mp4";
    let names = check_promotion_names("/tmp/d/", staging, staging, "/tmp/d/out.mp4").unwrap();
    assert_eq!(names, (".omarec-1.part.mp4".to_owned(), ".omarec-1.part.mp4".to_owned(), "out.mp4".to_owned()));
    assert!(check_promotion_names("/tmp/d", staging, staging, "/tmp/d/out.mp4").is_ok());
    assert!(matches!(
        check_promotion_names("/tmp/e", staging, staging, "/tmp/d/out.mp4"),
        Err(OutputError::WrongDirectory)
    ));
    assert!(matches!(
        check_promotion_names("/tmp/d/", staging, "/tmp/d/other.mp4", "/tmp/d/out.mp4"),
        Err(OutputError::ForgedSavedPath)
    ));
}
