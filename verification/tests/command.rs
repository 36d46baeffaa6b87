use omarec::domain::{
    AudioSource, AudioTrack, CaptureBackend, CaptureTarget, Codec, Container, CoordinateSpace,
    EvaluatedSpec, FrameMode, Geometry, HorizontalAlign, PostprocessMode, RecordingSpec,
    RegionEvidence, SpecValidationError, VerticalAlign, WebcamConfig,
};
use omarec::gsr_command::{shell_escape, GsrCommandBuilder, GsrPlan, PlanError};
use omarec::ids::SessionId;

fn evaluated(spec: RecordingSpec, codec: Codec) -> EvaluatedSpec {
    EvaluatedSpec {
        spec,
        backend: CaptureBackend::Direct,
        codec,
        capture_device: Some("nvidia".to_owned()),
        encoding_device: Some("nvidia".to_owned()),
        capability_generation: 1,
        topology_generation: 1,
        warnings: Vec::new(),
        rationale: Vec::new(),
    }
}

fn base_spec(target: CaptureTarget, output: &str) -> RecordingSpec {
    RecordingSpec {
        target,
        output: output.to_owned(),
        fps: 60,
        frame_mode: FrameMode::Constant,
        codec: Codec::Auto,
        container: Container::Mp4,
        fallback_cpu_encoding: true,
        audio_tracks: Vec::new(),
        webcam: None,
        postprocess: PostprocessMode::ValidateOnly,
        overwrite: false,
        exclude_metadata: true,
    }
}

fn pair(arguments: &[String], flag: &str) -> Option<String> {
    arguments.windows(2).find(|window| window[0] == flag).map(|window| window[1].clone())
}

fn session_one() -> SessionId {
    SessionId::parse("00000000-0000-0000-0000-000000000001").unwrap()
}

fn plan(spec: RecordingSpec, codec: Codec) -> GsrPlan {
    GsrCommandBuilder::new("gpu-screen-recorder")
        .plan(session_one(), "/run/user/1000/omarec/sessions/test", &evaluated(spec, codec))
        .unwrap()
}

fn plan_args(spec: RecordingSpec, codec: Codec) -> Vec<String> {
    plan(spec, codec).command.arguments
}

fn monitor(name: &str) -> CaptureTarget {
    CaptureTarget::Monitor { name: name.to_owned() }
}

#[test]
fn plan_uses_per_session_ipc_and_staging_file() {
    let mut spec = base_spec(monitor("DP-1"), "/home/test/Videos/capture.mp4");
    spec.audio_tracks = vec![AudioTrack::mixed(vec![AudioSource::DefaultOutput])];
    let plan = GsrCommandBuilder::new("gpu-screen-recorder")
        .plan(SessionId::new([5; 10]), "/run/user/1000/omarec/sessions/test", &evaluated(spec, Codec::Hevc))
        .unwrap();
    assert!(plan
        .command
        .arguments
        .windows(2)
        .any(|pair| pair == ["-ipc", "/run/user/1000/omarec/sessions/test/gsr.sock"]));
    assert!(plan.command.arguments.windows(2).any(|pair| pair == ["-k", "hevc"]));
    assert!(plan.staging_output.ends_with(".part.mp4"));
}

#[test]
fn golden_monitor_plan_uses_argv_vector() {
    let arguments = plan_args(
        base_spec(monitor("DP-1"), "/home/alice/Videos/Screenrecordings/demo.mp4"),
        Codec::Hevc,
    );
    assert_eq!(pair(&arguments, "-w").as_deref(), Some("DP-1"));
    assert_eq!(pair(&arguments, "-k").as_deref(), Some("hevc"));
    assert_eq!(pair(&arguments, "-f").as_deref(), Some("60"));
    assert_eq!(pair(&arguments, "-fm").as_deref(), Some("cfr"));
    assert_eq!(pair(&arguments, "-fallback-cpu-encoding").as_deref(), Some("yes"));
    assert_eq!(
        pair(&arguments, "-ipc").as_deref(),
        Some("/run/user/1000/omarec/sessions/test/gsr.sock")
    );
    assert!(!arguments.iter().any(|argument| argument.contains(' ')));
}

#[test]
fn golden_region_keeps_negative_logical_coordinates() {
    let arguments = plan_args(
        base_spec(
            CaptureTarget::Region {
                geometry: Geometry { x: -1920, y: 0, width: 1920, height: 1080 },
                coordinate_space: CoordinateSpace::Logical,
                evidence: RegionEvidence {
                    monitor: Some("HDMI-A-1".to_owned()),
                    ..RegionEvidence::default()
                },
            },
            "/tmp/demo.mp4",
        ),
        Codec::H264,
    );
    assert_eq!(pair(&arguments, "-w").as_deref(), Some("region"));
    assert_eq!(pair(&arguments, "-region").as_deref(), Some("1920x1080+-1920+0"));
}

#[test]
fn golden_mixed_desktop_and_microphone_is_one_track() {
    let mut spec = base_spec(monitor("DP-1"), "/tmp/demo.mp4");
    spec.audio_tracks =
        vec![AudioTrack::mixed(vec![AudioSource::DefaultOutput, AudioSource::DefaultInput])];
    let arguments = plan_args(spec, Codec::H264);
    assert_eq!(pair(&arguments, "-a").as_deref(), Some("default_output|default_input"));
    assert_eq!(arguments.iter().filter(|argument| *argument == "-a").count(), 1);
}

#[test]
fn golden_portal_and_dash_prefixed_and_unicode_paths() {
    let portal = plan(
        base_spec(
            CaptureTarget::Portal { restore_token_file: Some("/tmp/portal-token".to_owned()) },
            "/tmp/демо.mp4",
        ),
        Codec::H264,
    );
    assert_eq!(pair(&portal.command.arguments, "-w").as_deref(), Some("portal"));
    assert_eq!(
        pair(&portal.command.arguments, "-portal-session-token-filepath").as_deref(),
        Some("/tmp/portal-token")
    );
    assert!(portal.final_output.contains("демо"));
    assert_eq!(
        pair(&portal.command.arguments, "-o").as_deref(),
        Some(portal.staging_output.as_str())
    );

    let dash = plan_args(base_spec(monitor("-DP-1"), "/tmp/demo.mp4"), Codec::H264);
    assert_eq!(pair(&dash, "-w").as_deref(), Some("-DP-1"));
    assert!(!dash.contains(&"--DP-1".to_owned()));
}

#[test]
fn golden_webcam_native_composition_and_hdr_portal_rejection() {
    let mut spec = base_spec(monitor("DP-1"), "/tmp/demo.mp4");
    spec.webcam = Some(WebcamConfig {
        device: "/dev/video0".to_owned(),
        width_percent: 25,
        height_percent: 25,
        horizontal_align: HorizontalAlign::End,
        vertical_align: VerticalAlign::End,
        horizontal_flip: true,
        vertical_flip: false,
        camera_width: None,
        camera_height: None,
        camera_fps: None,
    });
    let arguments = plan_args(spec, Codec::H264);
    assert!(pair(&arguments, "-w").unwrap().starts_with("DP-1|/dev/video0;"));
    assert!(pair(&arguments, "-w").unwrap().contains("width=25%"));

    let hdr = base_spec(CaptureTarget::Portal { restore_token_file: None }, "/tmp/demo.mp4");
    let mut hdr = evaluated(hdr, Codec::HevcHdr);
    hdr.spec.codec = Codec::HevcHdr;
    let error = GsrCommandBuilder::new("gpu-screen-recorder")
        .plan(session_one(), "/tmp", &hdr)
        .unwrap_err();
    assert!(matches!(
        error,
        PlanError::InvalidSpec(SpecValidationError::HdrPortalUnsupported)
    ));
}

#[test]
fn staging_and_timestamp_files_sit_beside_the_destination() {
    let plan = plan(base_spec(monitor("DP-1"), "/tmp/demo.mp4"), Codec::H264);
    assert_eq!(plan.final_output, "/tmp/demo.mp4");
    assert_eq!(plan.staging_output, "/tmp/.omarec-00000000-0000-0000-0000-000000000001.part.mp4");
    assert_eq!(
        plan.first_frame_timestamp,
        "/tmp/.omarec-00000000-0000-0000-0000-000000000001.part.mp4.ts"
    );
    assert_eq!(plan.command.program, "gpu-screen-recorder");
}

#[test]
fn shell_escape_quotes_only_unsafe_words() {
    assert_eq!(shell_escape("plain-word_1.mp4"), "plain-word_1.mp4");
    assert_eq!(shell_escape(""), "''");
    assert_eq!(shell_escape("it's here"), "'it'\\''s here'");
}
