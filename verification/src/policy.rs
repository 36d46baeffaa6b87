//! Capability policy: decides backend and codec and checks the target, audio
//! and webcam against what the recorder advertises. No process or file I/O.

use vstd::prelude::*;
use crate::capabilities::{Capabilities, HostFacts};
use crate::config::BackendConfig;
use crate::decimal::dec;
use crate::domain::{
    codec_from_name, codec_name, source_text, validation_error, validation_matches, AudioSource,
    AudioTrack, CaptureBackend, CaptureTarget, Codec, EvaluatedSpec, EvaluatedSpecView,
    RecordingSpec, RecordingSpecView, SpecValidationError, WebcamConfig,
};
use crate::text::{copy_opt_string, copy_strings, list_has, push_str, texts};

verus! {

#[derive(Clone, Debug, PartialEq, Eq)]
pub enum PolicyError {
    InvalidSpec(SpecValidationError),
    TargetUnavailable { target: String, alternatives: Vec<String> },
    BackendUnavailable { backend: String, reason: String, alternatives: Vec<String> },
    CodecUnavailable { codec: Codec, alternatives: Vec<String> },
    BackendCodecConflict { backend: CaptureBackend, codec: Codec, alternatives: Vec<String> },
    AudioSourceUnavailable { id: String, alternatives: Vec<String> },
    CameraUnavailable { device: String, alternatives: Vec<String> },
}

/// A policy error's content. The invalid-spec case is described by `validation_matches`.
pub enum PolicyErrorView {
    InvalidSpec,
    TargetUnavailable { target: Seq<char>, alternatives: Seq<Seq<char>> },
    BackendUnavailable { backend: Seq<char>, reason: Seq<char>, alternatives: Seq<Seq<char>> },
    CodecUnavailable { codec: Codec, alternatives: Seq<Seq<char>> },
    BackendCodecConflict { backend: CaptureBackend, codec: Codec, alternatives: Seq<Seq<char>> },
    AudioSourceUnavailable { id: Seq<char>, alternatives: Seq<Seq<char>> },
    CameraUnavailable { device: Seq<char>, alternatives: Seq<Seq<char>> },
}

impl View for PolicyError {
    type V = PolicyErrorView;

    open spec fn view(&self) -> PolicyErrorView {
        match self {
            PolicyError::InvalidSpec(_) => PolicyErrorView::InvalidSpec,
            PolicyError::TargetUnavailable { target, alternatives } => PolicyErrorView::TargetUnavailable {
                target: target@,
                alternatives: texts(alternatives@),
            },
            PolicyError::BackendUnavailable { backend, reason, alternatives } => PolicyErrorView::BackendUnavailable {
                backend: backend@,
                reason: reason@,
                alternatives: texts(alternatives@),
            },
            PolicyError::CodecUnavailable { codec, alternatives } => PolicyErrorView::CodecUnavailable {
                codec: *codec,
                alternatives: texts(alternatives@),
            },
            PolicyError::BackendCodecConflict { backend, codec, alternatives } => PolicyErrorView::BackendCodecConflict {
                backend: *backend,
                codec: *codec,
                alternatives: texts(alternatives@),
            },
            PolicyError::AudioSourceUnavailable { id, alternatives } => PolicyErrorView::AudioSourceUnavailable {
                id: id@,
                alternatives: texts(alternatives@),
            },
            PolicyError::CameraUnavailable { device, alternatives } => PolicyErrorView::CameraUnavailable {
                device: device@,
                alternatives: texts(alternatives@),
            },
        }
    }
}

pub open spec fn error_code(e: PolicyErrorView) -> Seq<char> {
    match e {
        PolicyErrorView::InvalidSpec => "invalid_request"@,
        PolicyErrorView::TargetUnavailable { .. } => "target_unavailable"@,
        PolicyErrorView::BackendUnavailable { .. } => "backend_unavailable"@,
        PolicyErrorView::CodecUnavailable { .. } => "backend_codec_conflict"@,
        PolicyErrorView::BackendCodecConflict { .. } => "backend_codec_conflict"@,
        PolicyErrorView::AudioSourceUnavailable { .. } => "audio_source_unavailable"@,
        PolicyErrorView::CameraUnavailable { .. } => "camera_unavailable"@,
    }
}

impl PolicyError {
    /// Stable protocol code of the error.
    pub fn code(&self) -> (s: &'static str)
        ensures
            s@ == error_code(self@),
    {
        match self {
            PolicyError::InvalidSpec(_) => "invalid_request",
            PolicyError::TargetUnavailable { .. } => "target_unavailable",
            PolicyError::BackendUnavailable { .. } => "backend_unavailable",
            PolicyError::CodecUnavailable { .. } | PolicyError::BackendCodecConflict { .. } => {
                "backend_codec_conflict"
            },
            PolicyError::AudioSourceUnavailable { .. } => "audio_source_unavailable",
            PolicyError::CameraUnavailable { .. } => "camera_unavailable",
        }
    }
}

/// Order in which an automatic codec is chosen.
pub open spec fn auto_order() -> Seq<Codec> {
    seq![Codec::Hevc, Codec::Av1, Codec::H264, Codec::Vp9, Codec::Vp8]
}

pub open spec fn software_name(c: Codec) -> Seq<char> {
    codec_name(c) + "_software"@
}

/// The recorder advertises a GPU encoder for `c`, or a software one and CPU fallback is allowed.
pub open spec fn advertises(codecs: Seq<String>, c: Codec, allow_cpu: bool) -> bool {
    list_has(codecs, codec_name(c)) || (allow_cpu && list_has(codecs, software_name(c)))
}

pub open spec fn software_only(codecs: Seq<String>, c: Codec) -> bool {
    list_has(codecs, software_name(c)) && !list_has(codecs, codec_name(c))
}

/// First codec of `order[i..]` the recorder advertises.
pub open spec fn first_advertised(order: Seq<Codec>, codecs: Seq<String>, allow_cpu: bool, i: int) -> Option<Codec>
    decreases order.len() - i,
{
    if 0 <= i < order.len() {
        if advertises(codecs, order[i], allow_cpu) {
            Some(order[i])
        } else {
            first_advertised(order, codecs, allow_cpu, i + 1)
        }
    } else {
        None
    }
}

/// The codec policy selects: the first advertised one of the automatic order
/// for `Auto`, otherwise the requested codec when advertised.
pub open spec fn selected_codec(requested: Codec, codecs: Seq<String>, allow_cpu: bool) -> Option<Codec> {
    if requested == Codec::Auto {
        first_advertised(auto_order(), codecs, allow_cpu, 0)
    } else if advertises(codecs, requested, allow_cpu) {
        Some(requested)
    } else {
        None
    }
}

/// Advertised names of `codecs[i..]` that denote a codec, in order.
pub open spec fn codec_names_from(codecs: Seq<String>, i: int) -> Seq<Seq<char>>
    decreases codecs.len() - i,
{
    if 0 <= i < codecs.len() {
        (if codec_from_name(codecs[i]@) is Some {
            seq![codecs[i]@]
        } else {
            Seq::empty()
        }) + codec_names_from(codecs, i + 1)
    } else {
        Seq::empty()
    }
}

pub open spec fn advertised_names(codecs: Seq<String>) -> Seq<Seq<char>> {
    codec_names_from(codecs, 0)
}

/// Names of the codecs of `order[i..]` that are advertised, in order.
pub open spec fn available_from(order: Seq<Codec>, codecs: Seq<String>, allow_cpu: bool, i: int) -> Seq<Seq<char>>
    decreases order.len() - i,
{
    if 0 <= i < order.len() {
        (if advertises(codecs, order[i], allow_cpu) {
            seq![codec_name(order[i])]
        } else {
            Seq::empty()
        }) + available_from(order, codecs, allow_cpu, i + 1)
    } else {
        Seq::empty()
    }
}

pub open spec fn non_hdr_names(codecs: Seq<String>, allow_cpu: bool) -> Seq<Seq<char>> {
    available_from(auto_order(), codecs, allow_cpu, 0)
}

/// The backend a target implies. The daemon never retargets.
pub open spec fn target_backend(t: CaptureTarget) -> CaptureBackend {
    match t {
        CaptureTarget::Portal { .. } => CaptureBackend::Portal,
        _ => CaptureBackend::Direct,
    }
}

pub open spec fn backend_debug(b: CaptureBackend) -> Seq<char> {
    match b {
        CaptureBackend::Auto => "Auto"@,
        CaptureBackend::Direct => "Direct"@,
        CaptureBackend::Portal => "Portal"@,
    }
}

pub open spec fn target_error(t: CaptureTarget, caps: Capabilities, backend: CaptureBackend) -> Option<PolicyErrorView> {
    match t {
        CaptureTarget::Monitor { name } => if !list_has(caps.monitors@, name@) {
            Some(PolicyErrorView::TargetUnavailable { target: name@, alternatives: texts(caps.monitors@) })
        } else {
            None
        },
        CaptureTarget::Region { evidence, .. } => if !list_has(caps.capture_options@, "region"@) {
            Some(
                PolicyErrorView::TargetUnavailable {
                    target: "region"@,
                    alternatives: texts(caps.capture_options@),
                },
            )
        } else if evidence.monitor matches Some(m) && !list_has(caps.monitors@, m@) {
            Some(
                PolicyErrorView::TargetUnavailable {
                    target: evidence.monitor->0@,
                    alternatives: texts(caps.monitors@),
                },
            )
        } else {
            None
        },
        CaptureTarget::Portal { .. } => if backend != CaptureBackend::Portal {
            Some(
                PolicyErrorView::BackendUnavailable {
                    backend: "portal"@,
                    reason: "portal target requires portal backend"@,
                    alternatives: Seq::empty(),
                },
            )
        } else {
            None
        },
    }
}

pub open spec fn source_error(src: AudioSource, caps: Capabilities) -> Option<PolicyErrorView> {
    match src {
        AudioSource::DefaultOutput | AudioSource::DefaultInput => if caps.audio_devices@.len() > 0
            && !list_has(caps.audio_devices@, source_text(src)) {
            Some(
                PolicyErrorView::AudioSourceUnavailable {
                    id: source_text(src),
                    alternatives: texts(caps.audio_devices@),
                },
            )
        } else {
            None
        },
        AudioSource::Device { name } => if !list_has(caps.audio_devices@, name@) {
            Some(
                PolicyErrorView::AudioSourceUnavailable {
                    id: name@,
                    alternatives: texts(caps.audio_devices@),
                },
            )
        } else {
            None
        },
        AudioSource::Application { name } | AudioSource::ApplicationExcept { name } => if caps.applications@.len()
            > 0 && !list_has(caps.applications@, name@) {
            Some(
                PolicyErrorView::AudioSourceUnavailable {
                    id: name@,
                    alternatives: texts(caps.applications@),
                },
            )
        } else {
            None
        },
    }
}

/// First unavailable source of `srcs[j..]`.
pub open spec fn sources_error(srcs: Seq<AudioSource>, caps: Capabilities, j: int) -> Option<PolicyErrorView>
    decreases srcs.len() - j,
{
    if 0 <= j < srcs.len() {
        match source_error(srcs[j], caps) {
            Some(e) => Some(e),
            None => sources_error(srcs, caps, j + 1),
        }
    } else {
        None
    }
}

/// First unavailable source of `tracks[i..]`, track by track.
pub open spec fn tracks_error(tracks: Seq<Seq<AudioSource>>, caps: Capabilities, i: int) -> Option<PolicyErrorView>
    decreases tracks.len() - i,
{
    if 0 <= i < tracks.len() {
        match sources_error(tracks[i], caps, 0) {
            Some(e) => Some(e),
            None => tracks_error(tracks, caps, i + 1),
        }
    } else {
        None
    }
}

proof fn lemma_sources_error_kind(srcs: Seq<AudioSource>, caps: Capabilities, j: int)
    ensures
        sources_error(srcs, caps, j) matches Some(v) ==> v is AudioSourceUnavailable,
    decreases srcs.len() - j,
{
    if 0 <= j < srcs.len() {
        lemma_sources_error_kind(srcs, caps, j + 1);
    }
}

proof fn lemma_tracks_error_kind(tracks: Seq<Seq<AudioSource>>, caps: Capabilities, i: int)
    ensures
        tracks_error(tracks, caps, i) matches Some(v) ==> v is AudioSourceUnavailable,
    decreases tracks.len() - i,
{
    if 0 <= i < tracks.len() {
        lemma_sources_error_kind(tracks[i], caps, 0);
        lemma_tracks_error_kind(tracks, caps, i + 1);
    }
}

/// Webcam check: `Ok(true)` when the compatibility overlay is used (a warning).
pub open spec fn webcam_outcome(w: Option<WebcamConfig>, caps: Capabilities, b: BackendConfig) -> Result<bool, PolicyErrorView> {
    match w {
        None => Ok(false),
        Some(cam) => if caps.cameras@.len() > 0 && !list_has(caps.cameras@, cam.device@) {
            Err(
                PolicyErrorView::CameraUnavailable {
                    device: cam.device@,
                    alternatives: texts(caps.cameras@),
                },
            )
        } else if caps.native_multi_source_available && b.allow_native_webcam_composition {
            Ok(false)
        } else if b.allow_compatibility_webcam_overlay {
            Ok(true)
        } else {
            Err(PolicyErrorView::CameraUnavailable { device: cam.device@, alternatives: Seq::empty() })
        },
    }
}

pub open spec fn software_warning(c: Codec) -> Seq<char> {
    "using software "@ + codec_name(c) + " because a GPU encoder was not advertised"@
}

pub open spec fn overlay_warning() -> Seq<char> {
    "native multi-source composition is unavailable; keep the compatibility overlay as a fallback"@
}

pub open spec fn retarget_note() -> Seq<char> {
    "keeping the resolved monitor/region target; the daemon never retargets to portal"@
}

pub open spec fn codec_note(requested: Codec, c: Codec, generation: u64) -> Seq<char> {
    if requested == Codec::Auto {
        "codec auto resolved to "@ + codec_name(c) + " from capability generation "@ + dec(
            generation as nat,
        )
    } else {
        "codec "@ + codec_name(c)
    }
}

pub open spec fn opt_seq(b: bool, s: Seq<char>) -> Seq<Seq<char>> {
    if b {
        seq![s]
    } else {
        Seq::empty()
    }
}

/// Everything policy decides for a specification, in the order it checks.
pub open spec fn evaluation(s: RecordingSpecView, caps: Capabilities, host: HostFacts, b: BackendConfig) -> Result<EvaluatedSpecView, PolicyErrorView> {
    let backend = target_backend(s.target);
    if validation_error(s) is Some {
        Err(PolicyErrorView::InvalidSpec)
    } else if !caps.ipc_available {
        Err(
            PolicyErrorView::BackendUnavailable {
                backend: "gsr_ipc"@,
                reason: "per-instance GPU Screen Recorder IPC is required"@,
                alternatives: Seq::empty(),
            },
        )
    } else if backend == CaptureBackend::Portal && !caps.portal_available {
        Err(
            PolicyErrorView::BackendUnavailable {
                backend: "portal"@,
                reason: "portal capture is not advertised by GPU Screen Recorder"@,
                alternatives: texts(caps.monitors@),
            },
        )
    } else {
        match selected_codec(s.codec, caps.codecs@, b.allow_cpu_encoding_fallback) {
            None => Err(
                PolicyErrorView::CodecUnavailable {
                    codec: s.codec,
                    alternatives: advertised_names(caps.codecs@),
                },
            ),
            Some(codec) => match target_error(s.target, caps, backend) {
                Some(e) => Err(e),
                None => match tracks_error(s.audio_tracks, caps, 0) {
                    Some(e) => Err(e),
                    None => match webcam_outcome(s.webcam, caps, b) {
                        Err(e) => Err(e),
                        Ok(overlay) => if backend == CaptureBackend::Portal && codec.spec_is_hdr() {
                            Err(
                                PolicyErrorView::BackendCodecConflict {
                                    backend,
                                    codec,
                                    alternatives: non_hdr_names(
                                        caps.codecs@,
                                        b.allow_cpu_encoding_fallback,
                                    ),
                                },
                            )
                        } else {
                            Ok(
                                EvaluatedSpecView {
                                    spec: s,
                                    backend,
                                    codec,
                                    capture_device: match caps.capture_device {
                                        Some(d) => Some(d),
                                        None => host.gpu_vendor,
                                    },
                                    encoding_device: match caps.encoding_device {
                                        Some(d) => Some(d),
                                        None => host.gpu_vendor,
                                    },
                                    capability_generation: caps.generation,
                                    topology_generation: host.topology_generation,
                                    warnings: texts(caps.warnings@) + opt_seq(
                                        s.codec == Codec::Auto && software_only(caps.codecs@, codec),
                                        software_warning(codec),
                                    ) + opt_seq(overlay, overlay_warning()),
                                    rationale: opt_seq(
                                        backend == CaptureBackend::Direct && b.preferred
                                            == CaptureBackend::Portal && caps.portal_available,
                                        retarget_note(),
                                    ) + seq!["backend "@ + backend_debug(backend)] + seq![
                                        codec_note(s.codec, codec, caps.generation),
                                    ],
                                },
                            )
                        },
                    },
                },
            },
        }
    }
}


/// `evaluate` agrees with `evaluation`.
pub open spec fn evaluation_matches(s: RecordingSpecView, caps: Capabilities, host: HostFacts, b: BackendConfig, r: Result<EvaluatedSpec, PolicyError>) -> bool {
    match evaluation(s, caps, host, b) {
        Ok(v) => r matches Ok(e) && e@ == v,
        Err(PolicyErrorView::InvalidSpec) => r matches Err(PolicyError::InvalidSpec(e))
            && validation_matches(s, Err(e)),
        Err(v) => r matches Err(e) && e@ == v,
    }
}

fn no_strings() -> (v: Vec<String>)
    ensures
        v@.len() == 0,
        texts(v@) == Seq::<Seq<char>>::empty(),
{
    let v: Vec<String> = Vec::new();
    assert(texts(v@) =~= Seq::<Seq<char>>::empty());
    v
}

fn literal(s: &str) -> (r: String)
    ensures
        r@ == s@,
{
    crate::text::owned(s)
}

/// Name of the software encoder of `c`.
fn software_text(c: Codec) -> (s: String)
    ensures
        s@ == software_name(c),
{
    let mut v: Vec<char> = Vec::new();
    push_str(&mut v, c.as_gsr_value());
    push_str(&mut v, "_software");
    crate::text::string_from(v.as_slice())
}

pub fn codec_available(codec: Codec, capabilities: &Capabilities, allow_cpu: bool) -> (b: bool)
    ensures
        b == advertises(capabilities.codecs@, codec, allow_cpu),
{
    if crate::text::contains_text(&capabilities.codecs, codec.as_gsr_value()) {
        return true;
    }
    let software = software_text(codec);
    allow_cpu && crate::text::contains_text(&capabilities.codecs, software.as_str())
}

pub fn uses_software_only(codec: Codec, capabilities: &Capabilities) -> (b: bool)
    ensures
        b == software_only(capabilities.codecs@, codec),
{
    let gpu = crate::text::contains_text(&capabilities.codecs, codec.as_gsr_value());
    let software_name = software_text(codec);
    let software = crate::text::contains_text(&capabilities.codecs, software_name.as_str());
    software && !gpu
}

/// Advertised names that denote a codec.
pub fn advertised_codecs(capabilities: &Capabilities) -> (r: Vec<String>)
    ensures
        texts(r@) == advertised_names(capabilities.codecs@),
{
    let codecs = &capabilities.codecs;
    let mut r: Vec<String> = Vec::new();
    let mut i: usize = 0;
    while i < codecs.len()
        invariant
            i <= codecs@.len(),
            texts(r@) + codec_names_from(codecs@, i as int) == codec_names_from(codecs@, 0),
        decreases codecs@.len() - i,
    {
        let ghost before = texts(r@);
        if Codec::from_gsr_value(codecs[i].as_str()).is_some() {
            r.push(codecs[i].clone());
            assert(texts(r@) =~= before.push(codecs@[i as int]@));
        }
        assert(texts(r@) + codec_names_from(codecs@, i + 1) =~= before + codec_names_from(
            codecs@,
            i as int,
        ));
        i = i + 1;
    }
    assert(texts(r@) + codec_names_from(codecs@, i as int) =~= texts(r@));
    r
}

/// Names of the codecs of the automatic order that are advertised.
pub fn non_hdr_alternatives(capabilities: &Capabilities, backend: &BackendConfig) -> (r: Vec<String>)
    ensures
        texts(r@) == non_hdr_names(capabilities.codecs@, backend.allow_cpu_encoding_fallback),
{
    let order = [Codec::Hevc, Codec::Av1, Codec::H264, Codec::Vp9, Codec::Vp8];
    assert(order@ =~= auto_order());
    let allow = backend.allow_cpu_encoding_fallback;
    let mut r: Vec<String> = Vec::new();
    let mut i: usize = 0;
    while i < 5
        invariant
            i <= 5,
            order@ == auto_order(),
            allow == backend.allow_cpu_encoding_fallback,
            texts(r@) + available_from(order@, capabilities.codecs@, allow, i as int)
                == available_from(order@, capabilities.codecs@, allow, 0),
        decreases 5 - i,
    {
        let ghost before = texts(r@);
        let codec = order[i];
        if codec_available(codec, capabilities, allow) {
            r.push(literal(codec.as_gsr_value()));
            assert(texts(r@) =~= before.push(codec_name(codec)));
        }
        assert(texts(r@) + available_from(order@, capabilities.codecs@, allow, i + 1) =~= before
            + available_from(order@, capabilities.codecs@, allow, i as int));
        i = i + 1;
    }
    assert(texts(r@) + available_from(order@, capabilities.codecs@, allow, 5) =~= texts(r@));
    r
}

pub fn direct_alternatives(capabilities: &Capabilities) -> (r: Vec<String>)
    ensures
        r@ == capabilities.monitors@,
{
    copy_strings(&capabilities.monitors)
}

/// The backend a target implies; a portal target needs the recorder to
/// advertise portal capture.
pub fn select_backend(target: &CaptureTarget, capabilities: &Capabilities) -> (r: Result<CaptureBackend, PolicyError>)
    ensures
        (target is Portal && !capabilities.portal_available) ==> (r matches Err(e) && e@ == (
        PolicyErrorView::BackendUnavailable {
            backend: "portal"@,
            reason: "portal capture is not advertised by GPU Screen Recorder"@,
            alternatives: texts(capabilities.monitors@),
        })),
        !(target is Portal && !capabilities.portal_available) ==> r == Ok::<CaptureBackend, PolicyError>(
            target_backend(*target),
        ),
{
    let selected = match target {
        CaptureTarget::Portal { .. } => CaptureBackend::Portal,
        _ => CaptureBackend::Direct,
    };
    if selected == CaptureBackend::Portal && !capabilities.portal_available {
        return Err(
            PolicyError::BackendUnavailable {
                backend: literal("portal"),
                reason: literal("portal capture is not advertised by GPU Screen Recorder"),
                alternatives: direct_alternatives(capabilities),
            },
        );
    }
    Ok(selected)
}

/// Picks the codec: the first advertised one of the automatic order for
/// `Auto`, otherwise the requested codec when advertised.
pub fn select_codec(requested: Codec, capabilities: &Capabilities, backend: &BackendConfig) -> (r: Result<Codec, PolicyError>)
    ensures
        match selected_codec(requested, capabilities.codecs@, backend.allow_cpu_encoding_fallback) {
            Some(c) => r == Ok::<Codec, PolicyError>(c),
            None => r matches Err(e) && e@ == (PolicyErrorView::CodecUnavailable {
                codec: requested,
                alternatives: advertised_names(capabilities.codecs@),
            }),
        },
{
    let allow = backend.allow_cpu_encoding_fallback;
    if requested == Codec::Auto {
        let order = [Codec::Hevc, Codec::Av1, Codec::H264, Codec::Vp9, Codec::Vp8];
        assert(order@ =~= auto_order());
        let mut i: usize = 0;
        while i < 5
            invariant
                i <= 5,
                order@ == auto_order(),
                requested == Codec::Auto,
                allow == backend.allow_cpu_encoding_fallback,
                first_advertised(order@, capabilities.codecs@, allow, i as int) == first_advertised(
                    order@,
                    capabilities.codecs@,
                    allow,
                    0,
                ),
            decreases 5 - i,
        {
            if codec_available(order[i], capabilities, allow) {
                return Ok(order[i]);
            }
            i = i + 1;
        }
        return Err(
            PolicyError::CodecUnavailable {
                codec: Codec::Auto,
                alternatives: advertised_codecs(capabilities),
            },
        );
    }
    if codec_available(requested, capabilities, allow) {
        return Ok(requested);
    }
    Err(PolicyError::CodecUnavailable { codec: requested, alternatives: advertised_codecs(capabilities) })
}

/// Checks the target against the advertised monitors and capture options.
pub fn validate_target(target: &CaptureTarget, capabilities: &Capabilities, backend: CaptureBackend) -> (r: Result<(), PolicyError>)
    ensures
        match target_error(*target, *capabilities, backend) {
            Some(v) => r matches Err(e) && e@ == v,
            None => r is Ok,
        },
{
    match target {
        CaptureTarget::Monitor { name } => {
            if !capabilities.has_monitor(name.as_str()) {
                return Err(
                    PolicyError::TargetUnavailable {
                        target: name.clone(),
                        alternatives: copy_strings(&capabilities.monitors),
                    },
                );
            }
        },
        CaptureTarget::Region { evidence, .. } => {
            if !capabilities.has_capture_option("region") {
                return Err(
                    PolicyError::TargetUnavailable {
                        target: literal("region"),
                        alternatives: copy_strings(&capabilities.capture_options),
                    },
                );
            }
            if let Some(monitor) = &evidence.monitor {
                if !capabilities.has_monitor(monitor.as_str()) {
                    return Err(
                        PolicyError::TargetUnavailable {
                            target: monitor.clone(),
                            alternatives: copy_strings(&capabilities.monitors),
                        },
                    );
                }
            }
        },
        CaptureTarget::Portal { .. } => {
            if backend != CaptureBackend::Portal {
                return Err(
                    PolicyError::BackendUnavailable {
                        backend: literal("portal"),
                        reason: literal("portal target requires portal backend"),
                        alternatives: no_strings(),
                    },
                );
            }
        },
    }
    Ok(())
}

fn validate_source(source: &AudioSource, capabilities: &Capabilities) -> (r: Result<(), PolicyError>)
    ensures
        match source_error(*source, *capabilities) {
            Some(v) => r matches Err(e) && e@ == v,
            None => r is Ok,
        },
{
    match source {
        AudioSource::DefaultOutput | AudioSource::DefaultInput => {
            let id = source.to_gsr_value();
            if capabilities.audio_devices.len() > 0 && !capabilities.has_audio_device(id.as_str()) {
                return Err(
                    PolicyError::AudioSourceUnavailable {
                        id,
                        alternatives: copy_strings(&capabilities.audio_devices),
                    },
                );
            }
        },
        AudioSource::Device { name } => {
            if !capabilities.has_audio_device(name.as_str()) {
                return Err(
                    PolicyError::AudioSourceUnavailable {
                        id: name.clone(),
                        alternatives: copy_strings(&capabilities.audio_devices),
                    },
                );
            }
        },
        AudioSource::Application { name } | AudioSource::ApplicationExcept { name } => {
            if capabilities.applications.len() > 0 && !capabilities.has_application(name.as_str()) {
                return Err(
                    PolicyError::AudioSourceUnavailable {
                        id: name.clone(),
                        alternatives: copy_strings(&capabilities.applications),
                    },
                );
            }
        },
    }
    Ok(())
}

fn validate_track(track: &AudioTrack, capabilities: &Capabilities) -> (r: Result<(), PolicyError>)
    ensures
        match sources_error(track@, *capabilities, 0) {
            Some(v) => r matches Err(e) && e@ == v,
            None => r is Ok,
        },
{
    let mut j: usize = 0;
    while j < track.sources.len()
        invariant
            j <= track@.len(),
            sources_error(track@, *capabilities, 0) == sources_error(track@, *capabilities, j as int),
        decreases track@.len() - j,
    {
        if let Err(e) = validate_source(&track.sources[j], capabilities) {
            return Err(e);
        }
        j = j + 1;
    }
    Ok(())
}

/// Checks every audio source, track by track, against the advertised devices and applications.
pub fn validate_audio(tracks: &Vec<AudioTrack>, capabilities: &Capabilities) -> (r: Result<(), PolicyError>)
    ensures
        match tracks_error(tracks.deep_view(), *capabilities, 0) {
            Some(v) => r matches Err(e) && e@ == v,
            None => r is Ok,
        },
{
    let mut i: usize = 0;
    while i < tracks.len()
        invariant
            i <= tracks@.len(),
            tracks_error(tracks.deep_view(), *capabilities, 0) == tracks_error(
                tracks.deep_view(),
                *capabilities,
                i as int,
            ),
        decreases tracks@.len() - i,
    {
        assert(tracks.deep_view()[i as int] == tracks@[i as int]@);
        if let Err(e) = validate_track(&tracks[i], capabilities) {
            return Err(e);
        }
        i = i + 1;
    }
    Ok(())
}

/// Checks the webcam against the advertised cameras and composition support.
/// `Ok(true)` means the compatibility overlay is used and a warning is due.
pub fn validate_webcam(webcam: &Option<WebcamConfig>, capabilities: &Capabilities, backend: &BackendConfig) -> (r: Result<bool, PolicyError>)
    ensures
        match webcam_outcome(*webcam, *capabilities, *backend) {
            Ok(w) => r == Ok::<bool, PolicyError>(w),
            Err(v) => r matches Err(e) && e@ == v,
        },
{
    let webcam = match webcam {
        Some(w) => w,
        None => return Ok(false),
    };
    if capabilities.cameras.len() > 0 && !capabilities.has_camera(webcam.device.as_str()) {
        return Err(
            PolicyError::CameraUnavailable {
                device: webcam.device.clone(),
                alternatives: copy_strings(&capabilities.cameras),
            },
        );
    }
    if capabilities.native_multi_source_available && backend.allow_native_webcam_composition {
        return Ok(false);
    }
    if backend.allow_compatibility_webcam_overlay {
        return Ok(true);
    }
    Err(PolicyError::CameraUnavailable { device: webcam.device.clone(), alternatives: no_strings() })
}

fn codec_note_text(requested: Codec, codec: Codec, generation: u64) -> (s: String)
    ensures
        s@ == codec_note(requested, codec, generation),
{
    let mut v: Vec<char> = Vec::new();
    if requested == Codec::Auto {
        push_str(&mut v, "codec auto resolved to ");
        push_str(&mut v, codec.as_gsr_value());
        push_str(&mut v, " from capability generation ");
        crate::decimal::push_dec(&mut v, generation);
    } else {
        push_str(&mut v, "codec ");
        push_str(&mut v, codec.as_gsr_value());
    }
    crate::text::string_from(v.as_slice())
}

fn backend_note(backend: CaptureBackend) -> (s: String)
    ensures
        s@ == "backend "@ + backend_debug(backend),
{
    let mut v: Vec<char> = Vec::new();
    push_str(&mut v, "backend ");
    match backend {
        CaptureBackend::Auto => push_str(&mut v, "Auto"),
        CaptureBackend::Direct => push_str(&mut v, "Direct"),
        CaptureBackend::Portal => push_str(&mut v, "Portal"),
    }
    crate::text::string_from(v.as_slice())
}

fn software_warning_text(codec: Codec) -> (s: String)
    ensures
        s@ == software_warning(codec),
{
    let mut v: Vec<char> = Vec::new();
    push_str(&mut v, "using software ");
    push_str(&mut v, codec.as_gsr_value());
    push_str(&mut v, " because a GPU encoder was not advertised");
    crate::text::string_from(v.as_slice())
}


/// Evaluates a specification against recorder capabilities and host facts.
pub fn evaluate(spec: &RecordingSpec, capabilities: &Capabilities, host: &HostFacts, backend: &BackendConfig) -> (r: Result<EvaluatedSpec, PolicyError>)
    ensures
        evaluation_matches(spec@, *capabilities, *host, *backend, r),
{
    if let Err(e) = spec.validate() {
        return Err(PolicyError::InvalidSpec(e));
    }
    if !capabilities.ipc_available {
        return Err(
            PolicyError::BackendUnavailable {
                backend: literal("gsr_ipc"),
                reason: literal("per-instance GPU Screen Recorder IPC is required"),
                alternatives: no_strings(),
            },
        );
    }
    let selected = match select_backend(&spec.target, capabilities) {
        Ok(b) => b,
        Err(e) => {
            return Err(e);
        },
    };
    assert(selected == target_backend(spec@.target));
    let codec = match select_codec(spec.codec, capabilities, backend) {
        Ok(c) => c,
        Err(e) => {
            assert(selected_codec(spec.codec, capabilities.codecs@, backend.allow_cpu_encoding_fallback) is None);
            assert(evaluation(spec@, *capabilities, *host, *backend) == Err::<EvaluatedSpecView, PolicyErrorView>(e@));
            return Err(e);
        },
    };
    assert(selected_codec(spec.codec, capabilities.codecs@, backend.allow_cpu_encoding_fallback) == Some(codec));
    if let Err(e) = validate_target(&spec.target, capabilities, selected) {
        assert(target_error(spec@.target, *capabilities, selected) is Some);
        assert(evaluation(spec@, *capabilities, *host, *backend) == Err::<EvaluatedSpecView, PolicyErrorView>(e@));
        return Err(e);
    }
    assert(target_error(spec@.target, *capabilities, selected) is None);
    if let Err(e) = validate_audio(&spec.audio_tracks, capabilities) {
        proof {
            lemma_tracks_error_kind(spec@.audio_tracks, *capabilities, 0);
        }
        assert(evaluation(spec@, *capabilities, *host, *backend) == Err::<EvaluatedSpecView, PolicyErrorView>(e@));
        return Err(e);
    }
    assert(tracks_error(spec@.audio_tracks, *capabilities, 0) is None);
    let overlay = match validate_webcam(&spec.webcam, capabilities, backend) {
        Ok(w) => w,
        Err(e) => {
            assert(evaluation(spec@, *capabilities, *host, *backend) == Err::<EvaluatedSpecView, PolicyErrorView>(e@));
            return Err(e);
        },
    };
    assert(webcam_outcome(spec@.webcam, *capabilities, *backend) == Ok::<bool, PolicyErrorView>(overlay));
    if selected == CaptureBackend::Portal && codec.is_hdr() {
        return Err(
            PolicyError::BackendCodecConflict {
                backend: selected,
                codec,
                alternatives: non_hdr_alternatives(capabilities, backend),
            },
        );
    }
    let warnings = evaluation_warnings(spec.codec, codec, overlay, capabilities);
    let rationale = evaluation_rationale(spec.codec, codec, selected, capabilities, backend);
    let capture_device = match &capabilities.capture_device {
        Some(d) => Some(d.clone()),
        None => copy_opt_string(&host.gpu_vendor),
    };
    let encoding_device = match &capabilities.encoding_device {
        Some(d) => Some(d.clone()),
        None => copy_opt_string(&host.gpu_vendor),
    };
    Ok(
        EvaluatedSpec {
            spec: spec.copy(),
            backend: selected,
            codec,
            capture_device,
            encoding_device,
            capability_generation: capabilities.generation,
            topology_generation: host.topology_generation,
            warnings,
            rationale,
        },
    )
}

fn evaluation_warnings(requested: Codec, codec: Codec, overlay: bool, capabilities: &Capabilities) -> (w: Vec<String>)
    ensures
        texts(w@) == texts(capabilities.warnings@) + opt_seq(
            requested == Codec::Auto && software_only(capabilities.codecs@, codec),
            software_warning(codec),
        ) + opt_seq(overlay, overlay_warning()),
{
    let mut warnings = copy_strings(&capabilities.warnings);
    let ghost w0 = texts(warnings@);
    let software = requested == Codec::Auto && uses_software_only(codec, capabilities);
    if software {
        warnings.push(software_warning_text(codec));
    }
    let ghost w1 = texts(warnings@);
    assert(w1 =~= w0 + opt_seq(software, software_warning(codec)));
    if overlay {
        warnings.push(
            literal(
                "native multi-source composition is unavailable; keep the compatibility overlay as a fallback",
            ),
        );
    }
    assert(texts(warnings@) =~= w1 + opt_seq(overlay, overlay_warning()));
    warnings
}

fn evaluation_rationale(requested: Codec, codec: Codec, selected: CaptureBackend, capabilities: &Capabilities, backend: &BackendConfig) -> (r: Vec<String>)
    ensures
        texts(r@) == opt_seq(
            selected == CaptureBackend::Direct && backend.preferred == CaptureBackend::Portal
                && capabilities.portal_available,
            retarget_note(),
        ) + seq!["backend "@ + backend_debug(selected)] + seq![
            codec_note(requested, codec, capabilities.generation),
        ],
{
    let mut rationale: Vec<String> = Vec::new();
    let note = selected == CaptureBackend::Direct && backend.preferred == CaptureBackend::Portal
        && capabilities.portal_available;
    if note {
        rationale.push(
            literal("keeping the resolved monitor/region target; the daemon never retargets to portal"),
        );
    }
    let ghost r0 = texts(rationale@);
    assert(r0 =~= opt_seq(note, retarget_note()));
    rationale.push(backend_note(selected));
    let ghost r1 = texts(rationale@);
    assert(r1 =~= r0 + seq!["backend "@ + backend_debug(selected)]);
    rationale.push(codec_note_text(requested, codec, capabilities.generation));
    assert(texts(rationale@) =~= r1 + seq![codec_note(requested, codec, capabilities.generation)]);
    rationale
}

} // verus!
