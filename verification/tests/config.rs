use omarec::config::{Config, ConfigError, Profile};
use omarec::domain::{
    AudioSource, AudioTrack, CaptureTarget, Codec, RecordingRequest, RequestOverrides,
};

fn request_with(overrides: RequestOverrides) -> RecordingRequest {
    RecordingRequest {
        target: CaptureTarget::Monitor { name: "DP-1".to_owned() },
        profile: None,
        output: Some("/tmp/out.mp4".to_owned()),
        overrides,
    }
}

#[test]
fn defaults_are_self_consistent() {
    let config = Config::default();
    config.validate().unwrap();
    assert_eq!(config.profile(None).unwrap().fps, 60);
}

#[test]
fn unset_override_inherits_profile() {
    let config = Config::default();
    let spec = config.resolve_request(&request_with(RequestOverrides::default())).unwrap();
    assert_eq!(spec.fps, 60);
    assert_eq!(spec.codec, Codec::Auto);
    assert_eq!(spec.audio_tracks, vec![AudioTrack::mixed(vec![AudioSource::DefaultOutput])]);
}

#[test]
fn explicit_override_beats_profile() {
    let config = Config::default();
    let spec = config
        .resolve_request(&request_with(RequestOverrides {
            fps: Some(30),
            codec: Some(Codec::H264),
            audio_tracks: Some(Vec::new()),
            ..RequestOverrides::default()
        }))
        .unwrap();
    assert_eq!(spec.fps, 30);
    assert_eq!(spec.codec, Codec::H264);
    assert!(spec.audio_tracks.is_empty());
}

#[test]
fn named_profile_beats_default_profile() {
    let mut config = Config::default();
    config.insert_profile(
        "presentation".to_owned(),
        Profile { fps: 30, codec: Codec::H264, ..Profile::default() },
    );
    let mut request = request_with(RequestOverrides::default());
    request.profile = Some("presentation".to_owned());
    let spec = config.resolve_request(&request).unwrap();
    assert_eq!(spec.fps, 30);
    assert_eq!(spec.codec, Codec::H264);
}

#[test]
fn overwrite_request_is_rejected() {
    let config = Config::default();
    let error = config
        .resolve_request(&request_with(RequestOverrides {
            overwrite: Some(true),
            ..RequestOverrides::default()
        }))
        .unwrap_err();
    assert!(matches!(error, ConfigError::OverwriteUnsupported));
}

#[test]
fn unknown_profile_is_reported() {
    let config = Config::default();
    let mut request = request_with(RequestOverrides::default());
    request.profile = Some("missing".to_owned());
    assert!(matches!(
        config.resolve_request(&request),
        Err(ConfigError::UnknownProfile(name)) if name == "missing"
    ));
}
