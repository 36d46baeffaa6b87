//! Configuration: profiles, daemon limits, binaries, and request resolution.

use vstd::prelude::*;
use crate::textmap::TextMap;
use crate::domain::{
    copy_opt_webcam, copy_tracks, validation_error, validation_matches, AudioSource, AudioTrack,
    CaptureBackend, Codec, Container, FrameMode, PostprocessMode, RecordingRequest, RecordingSpec,
    RecordingSpecView, SpecValidationError, WebcamConfig,
};

verus! {

pub const CONFIG_SCHEMA_VERSION: u32 = 1;

#[derive(Clone, Debug, PartialEq, Eq)]
pub struct Profile {
    pub fps: u16,
    pub codec: Codec,
    pub frame_mode: FrameMode,
    pub container: Container,
    pub fallback_cpu_encoding: bool,
    pub audio_tracks: Vec<AudioTrack>,
    pub exclude_metadata: bool,
    pub postprocess: PostprocessMode,
    pub webcam: Option<WebcamConfig>,
}

/// A profile's content, its audio tracks as source lists.
pub struct ProfileView {
    pub fps: u16,
    pub codec: Codec,
    pub frame_mode: FrameMode,
    pub container: Container,
    pub fallback_cpu_encoding: bool,
    pub audio_tracks: Seq<Seq<AudioSource>>,
    pub exclude_metadata: bool,
    pub postprocess: PostprocessMode,
    pub webcam: Option<WebcamConfig>,
}

impl View for Profile {
    type V = ProfileView;

    open spec fn view(&self) -> ProfileView {
        ProfileView {
            fps: self.fps,
            codec: self.codec,
            frame_mode: self.frame_mode,
            container: self.container,
            fallback_cpu_encoding: self.fallback_cpu_encoding,
            audio_tracks: self.audio_tracks.deep_view(),
            exclude_metadata: self.exclude_metadata,
            postprocess: self.postprocess,
            webcam: self.webcam,
        }
    }
}

impl Default for Profile {
    fn default() -> (p: Self)
        ensures
            p.fps == 60 && p.codec == Codec::Auto && p.frame_mode == FrameMode::Constant,
            p.container == Container::Mp4 && p.fallback_cpu_encoding,
            p@.audio_tracks == seq![seq![AudioSource::DefaultOutput]],
            p.exclude_metadata && p.postprocess == PostprocessMode::ValidateOnly,
            p.webcam is None,
    {
        let mut sources: Vec<AudioSource> = Vec::new();
        sources.push(AudioSource::DefaultOutput);
        let mut tracks: Vec<AudioTrack> = Vec::new();
        tracks.push(AudioTrack::mixed(sources));
        assert(tracks.deep_view() =~= seq![seq![AudioSource::DefaultOutput]]) by {
            assert(tracks@[0].sources@ =~= seq![AudioSource::DefaultOutput]);
        }
        Profile {
            fps: 60,
            codec: Codec::Auto,
            frame_mode: FrameMode::Constant,
            container: Container::Mp4,
            fallback_cpu_encoding: true,
            audio_tracks: tracks,
            exclude_metadata: true,
            postprocess: PostprocessMode::ValidateOnly,
            webcam: None,
        }
    }
}

/// Named profiles.
pub type Profiles = TextMap<Profile>;

#[derive(Clone, Debug, PartialEq, Eq)]
pub struct DaemonConfig {
    pub startup_timeout_ms: u64,
    pub control_timeout_ms: u64,
    pub finalization_timeout_ms: u64,
    pub terminal_state_retention_ms: u64,
    pub capability_cache_ms: u64,
    pub max_protocol_frame_bytes: usize,
}

impl Default for DaemonConfig {
    fn default() -> (d: Self)
        ensures
            d.startup_timeout_ms == 10_000 && d.control_timeout_ms == 20_000,
            d.finalization_timeout_ms == 120_000 && d.terminal_state_retention_ms == 5_000,
            d.capability_cache_ms == 5_000 && d.max_protocol_frame_bytes == 1024 * 1024,
    {
        DaemonConfig {
            startup_timeout_ms: 10_000,
            control_timeout_ms: 20_000,
            finalization_timeout_ms: 120_000,
            terminal_state_retention_ms: 5_000,
            capability_cache_ms: 5_000,
            max_protocol_frame_bytes: 1024 * 1024,
        }
    }
}

#[derive(Clone, Debug, PartialEq, Eq)]
pub struct OutputConfig {
    pub directory: Option<String>,
    pub filename: String,
    pub default_container: Container,
    pub overwrite: bool,
    pub minimum_free_space_mib: u64,
    pub warn_free_space_mib: u64,
}

impl Default for OutputConfig {
    fn default() -> (o: Self)
        ensures
            o.directory is None && o.filename@ == "%Y-%m-%d_%H-%M-%S"@,
            o.default_container == Container::Mp4 && !o.overwrite,
            o.minimum_free_space_mib == 512 && o.warn_free_space_mib == 2048,
    {
        OutputConfig {
            directory: None,
            filename: crate::text::owned("%Y-%m-%d_%H-%M-%S"),
            default_container: Container::Mp4,
            overwrite: false,
            minimum_free_space_mib: 512,
            warn_free_space_mib: 2048,
        }
    }
}

#[derive(Clone, Copy, Debug, PartialEq, Eq, Structural)]
pub struct BackendConfig {
    pub preferred: CaptureBackend,
    pub allow_portal_fallback: bool,
    pub allow_cpu_encoding_fallback: bool,
    pub allow_native_webcam_composition: bool,
    pub allow_compatibility_webcam_overlay: bool,
}

impl Default for BackendConfig {
    fn default() -> (b: Self)
        ensures
            b.preferred == CaptureBackend::Auto && b.allow_portal_fallback,
            b.allow_cpu_encoding_fallback && b.allow_native_webcam_composition,
            b.allow_compatibility_webcam_overlay,
    {
        BackendConfig {
            preferred: CaptureBackend::Auto,
            allow_portal_fallback: true,
            allow_cpu_encoding_fallback: true,
            allow_native_webcam_composition: true,
            allow_compatibility_webcam_overlay: true,
        }
    }
}

#[derive(Clone, Debug, PartialEq, Eq)]
pub struct PostprocessConfig {
    pub default: PostprocessMode,
    pub ffprobe_binary: String,
    pub ffmpeg_binary: String,
}

impl Default for PostprocessConfig {
    fn default() -> (p: Self)
        ensures
            p.default == PostprocessMode::ValidateOnly,
            p.ffprobe_binary@ == "ffprobe"@ && p.ffmpeg_binary@ == "ffmpeg"@,
    {
        PostprocessConfig {
            default: PostprocessMode::ValidateOnly,
            ffprobe_binary: crate::text::owned("ffprobe"),
            ffmpeg_binary: crate::text::owned("ffmpeg"),
        }
    }
}

#[derive(Clone, Copy, Debug, PartialEq, Eq, Structural)]
pub struct DiagnosticsConfig {
    pub retain_sessions: u32,
    pub journal_lines: u32,
    pub redact_user_paths: bool,
    pub redact_hostnames: bool,
}

impl Default for DiagnosticsConfig {
    fn default() -> (d: Self)
        ensures
            d.retain_sessions == 25 && d.journal_lines == 200,
            d.redact_user_paths && d.redact_hostnames,
    {
        DiagnosticsConfig {
            retain_sessions: 25,
            journal_lines: 200,
            redact_user_paths: true,
            redact_hostnames: true,
        }
    }
}

#[derive(Clone, Debug, PartialEq, Eq)]
pub struct BinaryConfig {
    pub recorder_binary: String,
    pub recorder_cli_binary: String,
    pub systemd_run_binary: String,
    pub systemctl_binary: String,
    pub journalctl_binary: String,
}

impl Default for BinaryConfig {
    fn default() -> (b: Self)
        ensures
            b.recorder_binary@ == "gpu-screen-recorder"@,
            b.recorder_cli_binary@ == "gsr-cli"@,
            b.systemd_run_binary@ == "systemd-run"@,
            b.systemctl_binary@ == "systemctl"@,
            b.journalctl_binary@ == "journalctl"@,
    {
        BinaryConfig {
            recorder_binary: crate::text::owned("gpu-screen-recorder"),
            recorder_cli_binary: crate::text::owned("gsr-cli"),
            systemd_run_binary: crate::text::owned("systemd-run"),
            systemctl_binary: crate::text::owned("systemctl"),
            journalctl_binary: crate::text::owned("journalctl"),
        }
    }
}

#[derive(Clone, Debug, PartialEq, Eq)]
pub enum ConfigError {
    UnsupportedVersion(u32),
    UnknownDefaultProfile(String),
    UnknownProfile(String),
    MissingOutput,
    OverwriteUnsupported,
    InvalidSpec(SpecValidationError),
}

#[derive(Clone, Debug)]
pub struct Config {
    pub version: u32,
    pub default_profile: String,
    pub profiles: Profiles,
    pub daemon: DaemonConfig,
    pub output: OutputConfig,
    pub backend: BackendConfig,
    pub postprocess: PostprocessConfig,
    pub diagnostics: DiagnosticsConfig,
    pub binaries: BinaryConfig,
}

pub fn default_schema_version() -> (v: u32)
    ensures
        v == CONFIG_SCHEMA_VERSION,
{
    CONFIG_SCHEMA_VERSION
}

pub fn default_profile_name() -> (s: String)
    ensures
        s@ == "default"@,
{
    crate::text::owned("default")
}

/// The specification a request resolves to against a profile: each set
/// override wins, every unset field comes from the profile.
pub open spec fn resolved(request: RecordingRequest, output: Seq<char>, p: ProfileView) -> RecordingSpecView {
    let o = request.overrides;
    RecordingSpecView {
        target: request.target,
        output: output,
        fps: match o.fps {
            Some(v) => v,
            None => p.fps,
        },
        frame_mode: match o.frame_mode {
            Some(v) => v,
            None => p.frame_mode,
        },
        codec: match o.codec {
            Some(v) => v,
            None => p.codec,
        },
        container: match o.container {
            Some(v) => v,
            None => p.container,
        },
        fallback_cpu_encoding: match o.fallback_cpu_encoding {
            Some(v) => v,
            None => p.fallback_cpu_encoding,
        },
        audio_tracks: match o.audio_tracks {
            Some(v) => v.deep_view(),
            None => p.audio_tracks,
        },
        webcam: match o.webcam {
            Some(v) => Some(v),
            None => p.webcam,
        },
        postprocess: match o.postprocess {
            Some(v) => v,
            None => p.postprocess,
        },
        overwrite: false,
        exclude_metadata: match o.exclude_metadata {
            Some(v) => v,
            None => p.exclude_metadata,
        },
    }
}

/// Each override that is set is taken as it is, and each one that is not
/// leaves the profile's value: field by field.
pub open spec fn overrides_win(o: crate::domain::RequestOverrides, p: Profile, s: RecordingSpec) -> bool {
    &&& (o.fps matches Some(v) ==> s.fps == v) && (o.fps is None ==> s.fps == p.fps)
    &&& (o.frame_mode matches Some(v) ==> s.frame_mode == v) && (o.frame_mode is None ==> s.frame_mode
        == p.frame_mode)
    &&& (o.codec matches Some(v) ==> s.codec == v) && (o.codec is None ==> s.codec == p.codec)
    &&& (o.container matches Some(v) ==> s.container == v) && (o.container is None ==> s.container
        == p.container)
    &&& (o.fallback_cpu_encoding matches Some(v) ==> s.fallback_cpu_encoding == v) && (
    o.fallback_cpu_encoding is None ==> s.fallback_cpu_encoding == p.fallback_cpu_encoding)
    &&& (o.audio_tracks matches Some(v) ==> s.audio_tracks.deep_view() == v.deep_view()) && (
    o.audio_tracks is None ==> s.audio_tracks.deep_view() == p.audio_tracks.deep_view())
    &&& (o.webcam matches Some(w) ==> s.webcam == Some(w)) && (o.webcam is None ==> s.webcam
        == p.webcam)
    &&& (o.postprocess matches Some(v) ==> s.postprocess == v) && (o.postprocess is None
        ==> s.postprocess == p.postprocess)
    &&& (o.exclude_metadata matches Some(v) ==> s.exclude_metadata == v) && (o.exclude_metadata
        is None ==> s.exclude_metadata == p.exclude_metadata)
}

/// A request resolved against a profile keeps every override that is set
/// and the profile's value for every one that is not.
pub proof fn lemma_overrides_win(request: RecordingRequest, output: Seq<char>, p: Profile, s: RecordingSpec)
    requires
        s@ == resolved(request, output, p@),
    ensures
        overrides_win(request.overrides, p, s),
        s.target == request.target,
        s.output@ == output,
        !s.overwrite,
{
}

/// The specification a request resolves to against `profile`, with `output`.
fn build_spec(request: &RecordingRequest, output: String, profile: &Profile) -> (spec: RecordingSpec)
    ensures
        spec@ == resolved(*request, output@, profile@),
{
    let overrides = &request.overrides;
    let spec = RecordingSpec {
            target: request.target.copy(),
            output,
            fps: match overrides.fps {
                Some(v) => v,
                None => profile.fps,
            },
            frame_mode: match overrides.frame_mode {
                Some(v) => v,
                None => profile.frame_mode,
            },
            codec: match overrides.codec {
                Some(v) => v,
                None => profile.codec,
            },
            container: match overrides.container {
                Some(v) => v,
                None => profile.container,
            },
            fallback_cpu_encoding: match overrides.fallback_cpu_encoding {
                Some(v) => v,
                None => profile.fallback_cpu_encoding,
            },
            audio_tracks: match &overrides.audio_tracks {
                Some(v) => copy_tracks(v),
                None => copy_tracks(&profile.audio_tracks),
            },
            webcam: match &overrides.webcam {
                Some(w) => Some(w.copy()),
                None => copy_opt_webcam(&profile.webcam),
            },
            postprocess: match overrides.postprocess {
                Some(v) => v,
                None => profile.postprocess,
            },
            overwrite: false,
            exclude_metadata: match overrides.exclude_metadata {
                Some(v) => v,
                None => profile.exclude_metadata,
            },
        };
    spec
}

impl Config {
    pub open spec fn selected_name(self, name: Option<&str>) -> Seq<char> {
        match name {
            Some(n) => n@,
            None => self.default_profile@,
        }
    }

    pub open spec fn selected_request_name(self, name: Option<String>) -> Seq<char> {
        match name {
            Some(n) => n@,
            None => self.default_profile@,
        }
    }

    pub fn validate(&self) -> (r: Result<(), ConfigError>)
        ensures
            self.version != CONFIG_SCHEMA_VERSION ==> r == Err::<(), ConfigError>(
                ConfigError::UnsupportedVersion(self.version),
            ),
            self.version == CONFIG_SCHEMA_VERSION && self.profiles.lookup(self.default_profile@) is None
                ==> (r matches Err(ConfigError::UnknownDefaultProfile(n)) && n@ == self.default_profile@),
            self.version == CONFIG_SCHEMA_VERSION && self.profiles.lookup(self.default_profile@) is Some
                ==> r is Ok,
    {
        if self.version != CONFIG_SCHEMA_VERSION {
            return Err(ConfigError::UnsupportedVersion(self.version));
        }
        if !self.profiles.contains_key(self.default_profile.as_str()) {
            return Err(ConfigError::UnknownDefaultProfile(self.default_profile.clone()));
        }
        Ok(())
    }

    pub fn profile(&self, name: Option<&str>) -> (r: Result<&Profile, ConfigError>)
        ensures
            match self.profiles.lookup(self.selected_name(name)) {
                Some(v) => r matches Ok(p) && *p == v,
                None => r matches Err(ConfigError::UnknownProfile(n)) && n@ == self.selected_name(
                    name,
                ),
            },
    {
        let selected: &str = match name {
            Some(n) => n,
            None => self.default_profile.as_str(),
        };
        match self.profiles.get(selected) {
            Some(p) => Ok(p),
            None => Err(ConfigError::UnknownProfile(crate::text::owned(selected))),
        }
    }

    /// Resolve a request against profiles and compiled defaults. Performs no I/O.
    pub fn resolve_request(&self, request: &RecordingRequest) -> (r: Result<RecordingSpec, ConfigError>)
        ensures
            ({
                let name = self.selected_request_name(request.profile);
                match self.profiles.lookup(name) {
                    None => r matches Err(ConfigError::UnknownProfile(n)) && n@ == name,
                    Some(q) => if request.overrides.overwrite == Some(true) {
                        r == Err::<RecordingSpec, ConfigError>(ConfigError::OverwriteUnsupported)
                    } else if request.output is None {
                        r == Err::<RecordingSpec, ConfigError>(ConfigError::MissingOutput)
                    } else {
                        let view = resolved(*request, request.output->0@, q@);
                        match validation_error(view) {
                            None => r matches Ok(spec) && spec@ == view,
                            Some(_) => r matches Err(ConfigError::InvalidSpec(e)) && validation_matches(
                                view,
                                Err(e),
                            ),
                        }
                    },
                }
            }),
            r matches Ok(spec) ==> (self.profiles.lookup(self.selected_request_name(request.profile))
                matches Some(q) && overrides_win(request.overrides, q, spec)
                && spec.target == request.target && (request.output matches Some(out) && spec.output@
                == out@) && !spec.overwrite),
    {
        let name: Option<&str> = match &request.profile {
            Some(n) => Some(n.as_str()),
            None => None,
        };
        let profile = match self.profile(name) {
            Ok(p) => p,
            Err(e) => return Err(e),
        };
        let overrides = &request.overrides;
        if overrides.overwrite == Some(true) {
            return Err(ConfigError::OverwriteUnsupported);
        }
        let output = match &request.output {
            Some(o) => o.clone(),
            None => return Err(ConfigError::MissingOutput),
        };
        let ghost out = output@;
        let spec = build_spec(request, output, profile);
        proof {
            lemma_overrides_win(*request, out, *profile, spec);
        }
        match spec.validate() {
            Ok(()) => Ok(spec),
            Err(e) => Err(ConfigError::InvalidSpec(e)),
        }
    }

    /// Adds or replaces a named profile.
    pub fn insert_profile(&mut self, name: String, profile: Profile)
        ensures
            final(self).profiles.lookup(name@) == Some(profile),
            forall|k: Seq<char>| k != name@ ==> final(self).profiles.lookup(k) == old(self).profiles.lookup(k),
            final(self).version == old(self).version,
            final(self).default_profile == old(self).default_profile,
    {
        self.profiles.insert(name, profile);
    }
}

impl Default for Config {
    fn default() -> (c: Self)
        ensures
            c.version == CONFIG_SCHEMA_VERSION,
            c.default_profile@ == "default"@,
            c.profiles.lookup("default"@) matches Some(q) && q@ == (ProfileView {
                fps: 60,
                codec: Codec::Auto,
                frame_mode: FrameMode::Constant,
                container: Container::Mp4,
                fallback_cpu_encoding: true,
                audio_tracks: seq![seq![AudioSource::DefaultOutput]],
                exclude_metadata: true,
                postprocess: PostprocessMode::ValidateOnly,
                webcam: None,
            }),
            forall|k: Seq<char>| k != "default"@ ==> c.profiles.lookup(k) is None,
    {
        let mut profiles: Profiles = TextMap::new();
        profiles.insert(default_profile_name(), Profile::default());
        Config {
            version: default_schema_version(),
            default_profile: default_profile_name(),
            profiles,
            daemon: DaemonConfig::default(),
            output: OutputConfig::default(),
            backend: BackendConfig::default(),
            postprocess: PostprocessConfig::default(),
            diagnostics: DiagnosticsConfig::default(),
            binaries: BinaryConfig::default(),
        }
    }
}

} // verus!
