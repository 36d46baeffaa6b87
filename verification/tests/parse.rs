use omarec::gsr_parse::{
    assemble_capabilities, decode_bounded, parse_info, parse_version, ParseError, ProbeContext, ProbeDocuments,
    MAX_PROBE_BYTES,
};
use omarec::probe::coalesce_output;

#[test]
fn empty_required_documents_are_errors() {
    assert_eq!(parse_info("").unwrap_err(), ParseError::Empty);
    assert_eq!(parse_version("\n").unwrap_err(), ParseError::Empty);
    assert!(matches!(decode_bounded(&[0xff], 16), Err(ParseError::InvalidUtf8)));
    assert!(matches!(decode_bounded(&[b'a'; 8], 4), Err(ParseError::Oversized { limit: 4 })));
}

#[test]
fn help_on_stdout_is_kept_when_the_process_exits_nonzero() {
    let document = coalesce_output(
        b"usage: gpu-screen-recorder [-ipc <socket_path>]\n",
        b"",
        MAX_PROBE_BYTES,
    )
    .unwrap();
    assert!(document.contains("-ipc"));
}

#[test]
fn version_document_yields_the_first_version_token() {
    let version = parse_version("gpu-screen-recorder v6.0.0\n").unwrap();
    assert_eq!(version.raw, "gpu-screen-recorder v6.0.0");
    assert_eq!(version.version, "6.0.0");
    assert_eq!(
        parse_version("unknown\n").unwrap_err(),
        ParseError::MissingVersion("unknown".to_owned())
    );
}

#[test]
fn decode_bounded_accepts_utf8_within_the_limit() {
    assert_eq!(decode_bounded("демо".as_bytes(), 16).unwrap(), "демо");
    assert_eq!(decode_bounded(b"", 16).unwrap(), "");
}

fn documents<'a>(info: &'a str, capture_options: &'a str, help: Option<&'a str>) -> ProbeDocuments<'a> {
    ProbeDocuments {
        version: Some("gpu-screen-recorder v5.0.0\n"),
        info,
        capture_options,
        monitors: None,
        cameras: None,
        audio: None,
        applications: None,
        help,
    }
}

const INFO: &str = "section=system_info\nsupports_app_audio|maybe\nsection=gpu_info\nvendor|amd\nsection=capture_options\nscreen\n";

#[test]
fn assembled_capabilities_always_list_a_capture_option() {
    let context = ProbeContext::default();
    let from_list = assemble_capabilities(&documents(INFO, "  |\nportal|\n", Some("-ipc")), &context).unwrap();
    assert_eq!(from_list.capture_options, vec!["".to_owned(), "portal".to_owned()]);
    let from_info = assemble_capabilities(&documents(INFO, " \n", Some("-ipc")), &context).unwrap();
    assert_eq!(from_info.capture_options, vec!["screen".to_owned()]);
    let none = "section=gpu_info\nvendor|amd\n";
    assert_eq!(assemble_capabilities(&documents(none, "\n", None), &context).unwrap_err(), ParseError::Empty);
}

#[test]
fn help_warning_appears_exactly_when_help_is_missing() {
    let context = ProbeContext::default();
    let help = "recorder help probe was unavailable".to_owned();
    let without = assemble_capabilities(&documents(INFO, "screen\n", None), &context).unwrap();
    assert!(without.warnings.contains(&help));
    assert!(without.warnings.iter().any(|w| w.starts_with("unrecognized boolean probe value")));
    let with = assemble_capabilities(&documents(INFO, "screen\n", Some("usage")), &context).unwrap();
    assert!(!with.warnings.contains(&help));
    assert!(with.warnings.iter().all(|w| w.starts_with('u') || w.starts_with('s')));
}
