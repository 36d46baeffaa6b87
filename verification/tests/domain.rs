use omarec::domain::{
    AudioSource, AudioTrack, CaptureTarget, Codec, Container, CoordinateSpace, FrameMode, Geometry,
    PostprocessMode, RecordingSpec, RegionEvidence, SpecValidationError,
};

fn spec(target: CaptureTarget, output: &str, codec: Codec, container: Container) -> RecordingSpec {
    RecordingSpec {
        target,
        output: output.to_owned(),
        fps: 60,
        frame_mode: FrameMode::Constant,
        codec,
        container,
        fallback_cpu_encoding: true,
        audio_tracks: Vec::new(),
        webcam: None,
        postprocess: PostprocessMode::ValidateOnly,
        overwrite: false,
        exclude_metadata: true,
    }
}

#[test]
fn region_format_matches_gsr_contract() {
    let geometry = Geometry { x: -1920, y: 0, width: 1920, height: 1080 };
    assert_eq!(geometry.to_gsr_region(), "1920x1080+-1920+0");
}

#[test]
fn mixed_audio_track_uses_pipe_separator() {
    let track = AudioTrack::mixed(vec![AudioSource::DefaultOutput, AudioSource::DefaultInput]);
    assert_eq!(track.to_gsr_value().unwrap(), "default_output|default_input");
}

#[test]
fn portal_hdr_is_rejected_before_launch() {
    let spec = spec(
        CaptureTarget::Portal { restore_token_file: None },
        "capture.mkv",
        Codec::HevcHdr,
        Container::Mkv,
    );
    assert!(matches!(spec.validate(), Err(SpecValidationError::HdrPortalUnsupported)));
}

#[test]
fn empty_region_is_rejected() {
    let mut spec = spec(
        CaptureTarget::Region {
            geometry: Geometry { x: 0, y: 0, width: 0, height: 1080 },
            coordinate_space: CoordinateSpace::Logical,
            evidence: RegionEvidence::default(),
        },
        "capture.mp4",
        Codec::Auto,
        Container::Mp4,
    );
    spec.exclude_metadata = false;
    assert!(matches!(spec.validate(), Err(SpecValidationError::EmptyRegion)));
}

#[test]
fn overwrite_is_rejected_in_v1() {
    let mut spec = spec(
        CaptureTarget::Monitor { name: "DP-1".to_owned() },
        "capture.mp4",
        Codec::Auto,
        Container::Mp4,
    );
    spec.overwrite = true;
    assert!(matches!(spec.validate(), Err(SpecValidationError::OverwriteUnsupported)));
}

#[test]
fn target_summaries_are_stable() {
    assert_eq!(CaptureTarget::Monitor { name: "DP-1".to_owned() }.summary(), "monitor DP-1");
    assert_eq!(
        CaptureTarget::Region {
            geometry: Geometry { x: 0, y: 0, width: 100, height: 80 },
            coordinate_space: CoordinateSpace::Logical,
            evidence: RegionEvidence::default(),
        }
        .summary(),
        "region 100x80+0+0 (logical)"
    );
    assert_eq!(CaptureTarget::Portal { restore_token_file: None }.summary(), "portal");
}

#[test]
fn valid_monitor_spec_passes_validation() {
    let spec = spec(
        CaptureTarget::Monitor { name: "DP-1".to_owned() },
        "/tmp/capture.mp4",
        Codec::H264,
        Container::Mp4,
    );
    assert!(spec.validate().is_ok());
}

#[test]
fn each_validation_error_has_an_input() {
    let base = || spec(CaptureTarget::Monitor { name: "DP-1".to_owned() }, "/tmp/a.mp4", Codec::H264, Container::Mp4);
    let mut s = base();
    s.fps = 0;
    assert_eq!(s.validate(), Err(SpecValidationError::InvalidFps(0)));
    let mut s = base();
    s.fps = 1001;
    assert_eq!(s.validate(), Err(SpecValidationError::InvalidFps(1001)));
    let mut s = base();
    s.output = String::new();
    assert_eq!(s.validate(), Err(SpecValidationError::MissingOutput));
    let mut s = base();
    s.target = CaptureTarget::Monitor { name: String::new() };
    assert_eq!(s.validate(), Err(SpecValidationError::InvalidMonitorName));
    let mut s = base();
    s.target = CaptureTarget::Monitor { name: "DP\0".to_owned() };
    assert_eq!(s.validate(), Err(SpecValidationError::InvalidMonitorName));
    let mut s = base();
    s.output = "/tmp/capture".to_owned();
    assert_eq!(s.validate(), Err(SpecValidationError::MissingOutputExtension));
    let mut s = base();
    s.output = "/tmp/capture.mkv".to_owned();
    assert_eq!(
        s.validate(),
        Err(SpecValidationError::ContainerExtensionMismatch { container: Container::Mp4, extension: "mkv".to_owned() })
    );
    let mut s = base();
    s.audio_tracks = vec![AudioTrack::mixed(Vec::new())];
    assert_eq!(s.validate(), Err(SpecValidationError::EmptyAudioTrack));
    let mut s = base();
    let mut webcam = omarec::domain::WebcamConfig::default();
    webcam.width_percent = 0;
    s.webcam = Some(webcam);
    assert_eq!(s.validate(), Err(SpecValidationError::InvalidWebcamSize));
}

#[test]
fn codec_and_container_names_roundtrip() {
    for codec in [Codec::H264, Codec::Hevc, Codec::HevcHdr, Codec::Av1, Codec::Av1Hdr, Codec::Vp8, Codec::Vp9] {
        assert_eq!(Codec::from_gsr_value(codec.as_gsr_value()), Some(codec));
    }
    assert_eq!(Codec::H264.as_gsr_value(), "h264");
    for container in [Container::Mp4, Container::Mkv] {
        assert_eq!(Container::from_extension(container.extension()), Some(container));
    }
    assert_eq!(Container::from_extension("avi"), None);
}

#[test]
fn audio_sources_have_gsr_syntax() {
    assert_eq!(AudioSource::Device { name: "mic".to_owned() }.to_gsr_value(), "device:mic");
    assert_eq!(AudioSource::Application { name: "firefox".to_owned() }.to_gsr_value(), "app:firefox");
    assert_eq!(AudioSource::ApplicationExcept { name: "obs".to_owned() }.to_gsr_value(), "app-inverse:obs");
    assert!(AudioSource::DefaultOutput.is_desktop());
    assert!(AudioSource::DefaultInput.is_microphone());
    assert_eq!(AudioTrack::mixed(Vec::new()).to_gsr_value(), Err(SpecValidationError::EmptyAudioTrack));
}

#[test]
fn codec_and_container_names_read_back() {
    for codec in [
        Codec::Auto,
        Codec::H264,
        Codec::Hevc,
        Codec::HevcHdr,
        Codec::Av1,
        Codec::Av1Hdr,
        Codec::Vp8,
        Codec::Vp9,
    ] {
        assert_eq!(Codec::from_gsr_value(codec.as_gsr_value()), Some(codec));
    }
    for container in [Container::Mp4, Container::Mkv, Container::Webm] {
        assert_eq!(Container::from_extension(container.extension()), Some(container));
    }
    assert_eq!(Codec::from_gsr_value("h265"), None);
}
