use omarec::capabilities::{Capabilities, HostFacts};
use omarec::config::BackendConfig;
use omarec::domain::{
    AudioSource, AudioTrack, CaptureBackend, CaptureTarget, Codec, Container, CoordinateSpace,
    FrameMode, Geometry, PostprocessMode, RecordingSpec, RegionEvidence, WebcamConfig,
};
use omarec::policy::{evaluate, PolicyError};

fn owned(values: &[&str]) -> Vec<String> {
    values.iter().map(|value| (*value).to_owned()).collect()
}

fn nvidia() -> Capabilities {
    Capabilities {
        recorder_version: Some("6.0.0".to_owned()),
        capture_device: Some("nvidia".to_owned()),
        encoding_device: Some("nvidia".to_owned()),
        capture_options: owned(&["DP-1", "DP-3", "region", "portal"]),
        monitors: owned(&["DP-1", "DP-3"]),
        cameras: owned(&["/dev/video0"]),
        audio_devices: owned(&["default_output", "default_input"]),
        applications: owned(&["example-browser"]),
        codecs: owned(&["h264", "hevc", "hevc_hdr", "av1"]),
        portal_available: true,
        ipc_available: true,
        native_multi_source_available: true,
        generation: 7,
        probed_unix_ms: Some(1),
        raw_probe: Vec::new(),
        warnings: Vec::new(),
    }
}

fn intel_legacy() -> Capabilities {
    Capabilities {
        codecs: owned(&["h264", "h264_software"]),
        capture_options: owned(&["eDP-1", "region", "portal"]),
        monitors: owned(&["eDP-1"]),
        portal_available: true,
        ipc_available: true,
        ..Capabilities::default()
    }
}

fn spec(target: CaptureTarget, codec: Codec) -> RecordingSpec {
    RecordingSpec {
        target,
        output: "/tmp/out.mp4".to_owned(),
        fps: 60,
        frame_mode: FrameMode::Constant,
        codec,
        container: Container::Mp4,
        fallback_cpu_encoding: true,
        audio_tracks: vec![AudioTrack::mixed(vec![AudioSource::DefaultOutput])],
        webcam: None,
        postprocess: PostprocessMode::ValidateOnly,
        overwrite: false,
        exclude_metadata: true,
    }
}

fn host() -> HostFacts {
    HostFacts {
        display_server: Some("wayland".to_owned()),
        gpu_vendor: Some("nvidia".to_owned()),
        card_path: Some("/dev/dri/card1".to_owned()),
        topology_generation: 3,
    }
}

fn monitor(name: &str) -> CaptureTarget {
    CaptureTarget::Monitor { name: name.to_owned() }
}

#[test]
fn auto_codec_prefers_hevc_on_nvidia() {
    let evaluated =
        evaluate(&spec(monitor("DP-1"), Codec::Auto), &nvidia(), &host(), &BackendConfig::default())
            .unwrap();
    assert_eq!(evaluated.codec, Codec::Hevc);
    assert_eq!(evaluated.backend, CaptureBackend::Direct);
    assert_eq!(evaluated.capability_generation, 7);
    assert_eq!(evaluated.topology_generation, 3);
    assert!(evaluated.rationale.iter().any(|line| line.contains("hevc")));
}

#[test]
fn auto_codec_falls_back_to_h264_on_intel_legacy() {
    let evaluated = evaluate(
        &spec(monitor("eDP-1"), Codec::Auto),
        &intel_legacy(),
        &HostFacts::default(),
        &BackendConfig::default(),
    )
    .unwrap();
    assert_eq!(evaluated.codec, Codec::H264);
}

#[test]
fn missing_monitor_is_not_silently_retargeted() {
    let error = evaluate(
        &spec(monitor("HDMI-A-1"), Codec::H264),
        &nvidia(),
        &host(),
        &BackendConfig::default(),
    )
    .unwrap_err();
    assert_eq!(error.code(), "target_unavailable");
    match error {
        PolicyError::TargetUnavailable { alternatives, .. } => {
            assert_eq!(alternatives, ["DP-1", "DP-3"]);
        }
        other => panic!("unexpected {other:?}"),
    }
}

#[test]
fn hdr_portal_is_rejected_with_alternatives() {
    let error = evaluate(
        &spec(CaptureTarget::Portal { restore_token_file: None }, Codec::HevcHdr),
        &nvidia(),
        &host(),
        &BackendConfig::default(),
    )
    .unwrap_err();
    assert!(matches!(error, PolicyError::InvalidSpec(_)));
}

#[test]
fn unsupported_codec_lists_alternatives() {
    let error = evaluate(
        &spec(monitor("eDP-1"), Codec::Av1),
        &intel_legacy(),
        &HostFacts::default(),
        &BackendConfig::default(),
    )
    .unwrap_err();
    assert_eq!(error.code(), "backend_codec_conflict");
}

#[test]
fn stale_region_evidence_is_rejected() {
    let spec = spec(
        CaptureTarget::Region {
            geometry: Geometry { x: -1920, y: 0, width: 1920, height: 1080 },
            coordinate_space: CoordinateSpace::Logical,
            evidence: RegionEvidence {
                monitor: Some("HDMI-A-1".to_owned()),
                scale: Some("1.0".to_owned()),
                transform: Some(1),
            },
        },
        Codec::H264,
    );
    let error = evaluate(&spec, &nvidia(), &host(), &BackendConfig::default()).unwrap_err();
    assert_eq!(error.code(), "target_unavailable");
}

#[test]
fn missing_audio_device_is_rejected() {
    let mut spec = spec(monitor("DP-1"), Codec::H264);
    spec.audio_tracks =
        vec![AudioTrack::mixed(vec![AudioSource::Device { name: "missing".to_owned() }])];
    let error = evaluate(&spec, &nvidia(), &host(), &BackendConfig::default()).unwrap_err();
    assert_eq!(error.code(), "audio_source_unavailable");
}

#[test]
fn webcam_uses_native_composition_when_advertised() {
    let mut spec = spec(monitor("DP-1"), Codec::H264);
    spec.webcam = Some(WebcamConfig { device: "/dev/video0".to_owned(), ..WebcamConfig::default() });
    let evaluated = evaluate(&spec, &nvidia(), &host(), &BackendConfig::default()).unwrap();
    assert_eq!(evaluated.backend, CaptureBackend::Direct);
    assert!(evaluated.warnings.is_empty());
}

#[test]
fn missing_camera_is_rejected() {
    let mut spec = spec(monitor("DP-1"), Codec::H264);
    spec.webcam = Some(WebcamConfig { device: "/dev/video9".to_owned(), ..WebcamConfig::default() });
    let error = evaluate(&spec, &nvidia(), &host(), &BackendConfig::default()).unwrap_err();
    assert_eq!(error.code(), "camera_unavailable");
}
