//! The command-line client's logic: its recording arguments as a request,
//! the value parsers of its options, the request each command sends, and the
//! checks made on what the daemon answers. Talking to the socket is the
//! caller's part.

use vstd::prelude::*;
use crate::decimal::parse_signed;
use crate::domain::{
    container_from_extension, AudioSource, AudioTrack, CaptureTarget, Codec, Container,
    CoordinateSpace, FrameMode, Geometry, HorizontalAlign, PostprocessMode, RecordingRequest,
    RegionEvidence, RequestOverrides, VerticalAlign, WebcamConfig,
};
use crate::gsr_parse::parsed_u32;
use crate::ids::SessionId;
use crate::pathname::path_extension;
use crate::protocol::{Event, EventEnvelope, Request, Response, ResponseEnvelope, PROTOCOL_VERSION};
use crate::state::SessionSnapshot;
use crate::text::{owned, push_str, split_once, starts_with};

verus! {

#[derive(Clone, Copy, Debug, PartialEq, Eq, Structural)]
pub enum WebcamPosition {
    TopLeft,
    TopRight,
    BottomLeft,
    BottomRight,
    Center,
}

impl Default for WebcamPosition {
    fn default() -> (p: Self)
        ensures
            p == WebcamPosition::BottomRight,
    {
        WebcamPosition::BottomRight
    }
}

pub open spec fn position_alignments(p: WebcamPosition) -> (HorizontalAlign, VerticalAlign) {
    match p {
        WebcamPosition::TopLeft => (HorizontalAlign::Start, VerticalAlign::Start),
        WebcamPosition::TopRight => (HorizontalAlign::End, VerticalAlign::Start),
        WebcamPosition::BottomLeft => (HorizontalAlign::Start, VerticalAlign::End),
        WebcamPosition::BottomRight => (HorizontalAlign::End, VerticalAlign::End),
        WebcamPosition::Center => (HorizontalAlign::Center, VerticalAlign::Center),
    }
}

/// A position's alignments follow its name: a right position aligns at the
/// horizontal end and a left one at the start, a top position at the
/// vertical start and a bottom one at the end, and the centre in the middle
/// on both axes.
pub proof fn lemma_position_alignments_follow_names(p: WebcamPosition)
    ensures
        (p is TopRight || p is BottomRight) ==> position_alignments(p).0 == HorizontalAlign::End,
        (p is TopLeft || p is BottomLeft) ==> position_alignments(p).0 == HorizontalAlign::Start,
        (p is TopLeft || p is TopRight) ==> position_alignments(p).1 == VerticalAlign::Start,
        (p is BottomLeft || p is BottomRight) ==> position_alignments(p).1 == VerticalAlign::End,
        p is Center ==> position_alignments(p) == (HorizontalAlign::Center, VerticalAlign::Center),
{
}

impl WebcamPosition {
    pub fn alignments(self) -> (r: (HorizontalAlign, VerticalAlign))
        ensures
            r == position_alignments(self),
            (self is TopRight || self is BottomRight) ==> r.0 == HorizontalAlign::End,
            (self is TopLeft || self is BottomLeft) ==> r.0 == HorizontalAlign::Start,
            (self is TopLeft || self is TopRight) ==> r.1 == VerticalAlign::Start,
            (self is BottomLeft || self is BottomRight) ==> r.1 == VerticalAlign::End,
            self is Center ==> r == (HorizontalAlign::Center, VerticalAlign::Center),
    {
        match self {
            WebcamPosition::TopLeft => (HorizontalAlign::Start, VerticalAlign::Start),
            WebcamPosition::TopRight => (HorizontalAlign::End, VerticalAlign::Start),
            WebcamPosition::BottomLeft => (HorizontalAlign::Start, VerticalAlign::End),
            WebcamPosition::BottomRight => (HorizontalAlign::End, VerticalAlign::End),
            WebcamPosition::Center => (HorizontalAlign::Center, VerticalAlign::Center),
        }
    }
}

#[derive(Clone, Debug, PartialEq, Eq)]
pub enum CliError {
    Paths(crate::paths::PathError),
    Transport(String),
    InvalidArguments(String),
    Autostart(String),
    AutostartRejected(Option<i32>),
    AutostartTimeout(String),
    DaemonClosed,
    ProtocolMismatch { expected: u16, actual: u16 },
    MismatchedRequestId,
    Daemon { code: String, message: String, retryable: bool },
    Bundle(String),
    BundleSensitive,
    Json(String),
    Command(String, String),
    CommandFailed(String, Option<i32>),
}

/// The options of `plan` and `start`. Exactly one target is chosen.
#[derive(Clone, Debug)]
pub struct RecordingArguments {
    pub monitor: Option<String>,
    pub region: Option<Geometry>,
    pub portal: bool,
    pub focused_monitor: bool,
    pub coordinate_space: CoordinateSpace,
    pub portal_restore_token: Option<String>,
    pub output: String,
    pub profile: Option<String>,
    pub fps: u16,
    pub codec: Codec,
    pub frame_mode: FrameMode,
    pub fallback_cpu_encoding: bool,
    pub desktop_audio: bool,
    pub microphone: bool,
    pub audio: Vec<AudioSource>,
    pub webcam: Option<String>,
    pub webcam_size_percent: u8,
    pub webcam_position: WebcamPosition,
    pub webcam_mirror: bool,
    pub webcam_width: Option<u32>,
    pub webcam_height: Option<u32>,
    pub webcam_fps: Option<u32>,
    pub postprocess: PostprocessMode,
    pub exclude_metadata: bool,
}

/// The capture target the arguments choose, or why they choose none.
pub open spec fn requested_target(a: RecordingArguments) -> Result<CaptureTarget, Seq<char>> {
    if a.portal_restore_token is Some && !a.portal {
        Err("--portal-restore-token requires --portal"@)
    } else if a.monitor is Some {
        Ok(CaptureTarget::Monitor { name: a.monitor->0 })
    } else if a.region is Some {
        Ok(
            CaptureTarget::Region {
                geometry: a.region->0,
                coordinate_space: a.coordinate_space,
                evidence: RegionEvidence { monitor: None, scale: None, transform: None },
            },
        )
    } else if a.portal {
        Ok(CaptureTarget::Portal { restore_token_file: a.portal_restore_token })
    } else if a.focused_monitor {
        Err("focused monitor is a CLI/Omarchy adapter convenience; pass --monitor NAME"@)
    } else {
        Err("a capture target is required"@)
    }
}

/// The sources of the single mixed track: desktop, then microphone, then the extra ones.
pub open spec fn requested_sources(a: RecordingArguments) -> Seq<AudioSource> {
    (if a.desktop_audio {
        seq![AudioSource::DefaultOutput]
    } else {
        Seq::empty()
    }) + (if a.microphone {
        seq![AudioSource::DefaultInput]
    } else {
        Seq::empty()
    }) + a.audio@
}

/// The container named by the output's extension; `mp4` otherwise.
pub open spec fn requested_container(output: Seq<char>) -> Container {
    let ext = match path_extension(output) {
        Some(e) => e,
        None => "mp4"@,
    };
    match container_from_extension(ext) {
        Some(c) => c,
        None => Container::Mp4,
    }
}

pub open spec fn requested_webcam(a: RecordingArguments) -> Option<WebcamConfig> {
    match a.webcam {
        Some(device) => Some(
            WebcamConfig {
                device,
                width_percent: a.webcam_size_percent,
                height_percent: a.webcam_size_percent,
                horizontal_align: position_alignments(a.webcam_position).0,
                vertical_align: position_alignments(a.webcam_position).1,
                horizontal_flip: a.webcam_mirror,
                vertical_flip: false,
                camera_width: a.webcam_width,
                camera_height: a.webcam_height,
                camera_fps: a.webcam_fps,
            },
        ),
        None => None,
    }
}

/// The request the arguments describe for target `t`: every option is sent as
/// an explicit override except overwriting, which is left to the profile.
pub open spec fn request_matches(a: RecordingArguments, r: RecordingRequest, t: CaptureTarget) -> bool {
    &&& r.target == t
    &&& r.profile == a.profile
    &&& r.output == Some(a.output)
    &&& r.overrides.fps == Some(a.fps)
    &&& r.overrides.frame_mode == Some(a.frame_mode)
    &&& r.overrides.codec == Some(a.codec)
    &&& r.overrides.container == Some(requested_container(a.output@))
    &&& r.overrides.fallback_cpu_encoding == Some(a.fallback_cpu_encoding)
    &&& (if requested_sources(a).len() == 0 {
        r.overrides.audio_tracks is None
    } else {
        r.overrides.audio_tracks matches Some(v) && v@.len() == 1 && v@[0]@ == requested_sources(a)
    })
    &&& r.overrides.webcam == requested_webcam(a)
    &&& r.overrides.postprocess == Some(a.postprocess)
    &&& r.overrides.overwrite is None
    &&& r.overrides.exclude_metadata == Some(a.exclude_metadata)
}

fn requested_sources_of(desktop: bool, microphone: bool, audio: Vec<AudioSource>) -> (r: Vec<AudioSource>)
    ensures
        r@ == (if desktop {
            seq![AudioSource::DefaultOutput]
        } else {
            Seq::empty()
        }) + (if microphone {
            seq![AudioSource::DefaultInput]
        } else {
            Seq::empty()
        }) + audio@,
{
    let mut sources: Vec<AudioSource> = Vec::new();
    if desktop {
        sources.push(AudioSource::DefaultOutput);
    }
    if microphone {
        sources.push(AudioSource::DefaultInput);
    }
    let mut rest = audio;
    sources.append(&mut rest);
    sources
}

fn requested_container_of(output: &str) -> (c: Container)
    ensures
        c == requested_container(output@),
{
    let ext = match crate::pathname::extension(output) {
        Some(e) => e,
        None => owned("mp4"),
    };
    match Container::from_extension(ext.as_str()) {
        Some(c) => c,
        None => Container::Mp4,
    }
}

impl RecordingArguments {
    /// The request to send for these arguments.
    pub fn into_request(self) -> (r: Result<RecordingRequest, CliError>)
        ensures
            match requested_target(self) {
                Err(m) => r matches Err(CliError::InvalidArguments(x)) && x@ == m,
                Ok(t) => r matches Ok(req) && request_matches(self, req, t),
            },
    {
        let ghost a = self;
        if self.portal_restore_token.is_some() && !self.portal {
            return Err(CliError::InvalidArguments(owned("--portal-restore-token requires --portal")));
        }
        let target = if let Some(name) = self.monitor {
            CaptureTarget::Monitor { name }
        } else if let Some(geometry) = self.region {
            CaptureTarget::Region {
                geometry,
                coordinate_space: self.coordinate_space,
                evidence: RegionEvidence::default(),
            }
        } else if self.portal {
            CaptureTarget::Portal { restore_token_file: self.portal_restore_token }
        } else if self.focused_monitor {
            return Err(
                CliError::InvalidArguments(
                    owned("focused monitor is a CLI/Omarchy adapter convenience; pass --monitor NAME"),
                ),
            );
        } else {
            return Err(CliError::InvalidArguments(owned("a capture target is required")));
        };
        assert(requested_target(a) == Ok::<CaptureTarget, Seq<char>>(target));
        let sources = requested_sources_of(self.desktop_audio, self.microphone, self.audio);
        let audio_tracks = if sources.len() == 0 {
            None
        } else {
            let mut tracks: Vec<AudioTrack> = Vec::new();
            tracks.push(AudioTrack::mixed(sources));
            Some(tracks)
        };
        let webcam = match self.webcam {
            Some(device) => {
                let (horizontal_align, vertical_align) = self.webcam_position.alignments();
                Some(
                    WebcamConfig {
                        device,
                        width_percent: self.webcam_size_percent,
                        height_percent: self.webcam_size_percent,
                        horizontal_align,
                        vertical_align,
                        horizontal_flip: self.webcam_mirror,
                        vertical_flip: false,
                        camera_width: self.webcam_width,
                        camera_height: self.webcam_height,
                        camera_fps: self.webcam_fps,
                    },
                )
            },
            None => None,
        };
        let container = requested_container_of(self.output.as_str());
        let req = RecordingRequest {
            target,
            profile: self.profile,
            output: Some(self.output),
            overrides: RequestOverrides {
                fps: Some(self.fps),
                frame_mode: Some(self.frame_mode),
                codec: Some(self.codec),
                container: Some(container),
                fallback_cpu_encoding: Some(self.fallback_cpu_encoding),
                audio_tracks,
                webcam,
                postprocess: Some(self.postprocess),
                overwrite: None,
                exclude_metadata: Some(self.exclude_metadata),
            },
        };
        Ok(req)
    }
}

pub open spec fn shape_message() -> Seq<char> {
    "expected WIDTHxHEIGHT+X+Y"@
}

pub open spec fn parsed_i32(s: Seq<char>) -> Option<i32> {
    match parse_signed(s, i32::MIN as int, i32::MAX as int) {
        Some(v) => Some(v as i32),
        None => None,
    }
}

/// `WIDTHxHEIGHT+X+Y` with signed offsets; a region must not be empty.
pub open spec fn geometry_of(v: Seq<char>) -> Result<Geometry, Seq<char>> {
    match split_once(v, '+') {
        None => Err(shape_message()),
        Some((size, offsets)) => match split_once(size, 'x') {
            None => Err(shape_message()),
            Some((w, h)) => match split_once(offsets, '+') {
                None => Err(shape_message()),
                Some((x, y)) => match parsed_u32(w) {
                    None => Err("invalid width"@),
                    Some(width) => match parsed_u32(h) {
                        None => Err("invalid height"@),
                        Some(height) => match parsed_i32(x) {
                            None => Err("invalid X offset"@),
                            Some(xv) => match parsed_i32(y) {
                                None => Err("invalid Y offset"@),
                                Some(yv) => {
                                    let g = Geometry { x: xv, y: yv, width, height };
                                    if g.spec_is_empty() {
                                        Err("width and height must be non-zero"@)
                                    } else {
                                        Ok(g)
                                    }
                                },
                            },
                        },
                    },
                },
            },
        },
    }
}

pub open spec fn result_text<T>(r: Result<T, String>) -> Result<T, Seq<char>> {
    match r {
        Ok(v) => Ok(v),
        Err(e) => Err(e@),
    }
}

fn parse_i32_text(v: &[char]) -> (r: Option<i32>)
    ensures
        r == parsed_i32(v@),
{
    crate::decimal::parse_i32(v)
}

/// The value of `--region`.
pub fn parse_geometry(value: &str) -> (r: Result<Geometry, String>)
    ensures
        result_text(r) == geometry_of(value@),
{
    let v = crate::text::chars_of(value);
    let (size, offsets) = match crate::text::split_once_chars(v.as_slice(), '+') {
        Some(p) => p,
        None => {
            return Err(owned("expected WIDTHxHEIGHT+X+Y"));
        },
    };
    let (w, h) = match crate::text::split_once_chars(size.as_slice(), 'x') {
        Some(p) => p,
        None => {
            return Err(owned("expected WIDTHxHEIGHT+X+Y"));
        },
    };
    let (x, y) = match crate::text::split_once_chars(offsets.as_slice(), '+') {
        Some(p) => p,
        None => {
            return Err(owned("expected WIDTHxHEIGHT+X+Y"));
        },
    };
    let width = match crate::decimal::parse_u32(w.as_slice()) {
        Some(n) => n,
        None => {
            return Err(owned("invalid width"));
        },
    };
    let height = match crate::decimal::parse_u32(h.as_slice()) {
        Some(n) => n,
        None => {
            return Err(owned("invalid height"));
        },
    };
    let xv = match parse_i32_text(x.as_slice()) {
        Some(n) => n,
        None => {
            return Err(owned("invalid X offset"));
        },
    };
    let yv = match parse_i32_text(y.as_slice()) {
        Some(n) => n,
        None => {
            return Err(owned("invalid Y offset"));
        },
    };
    let geometry = Geometry { x: xv, y: yv, width, height };
    if geometry.is_empty() {
        return Err(owned("width and height must be non-zero"));
    }
    Ok(geometry)
}

proof fn lemma_find_first(s: Seq<char>, c: char, k: int, i: int)
    requires
        0 <= i <= k < s.len(),
        s[k] == c,
        forall|j: int| i <= j < k ==> s[j] != c,
    ensures
        crate::text::find_char(s, c, i) == k,
    decreases k - i,
{
    if i < k {
        lemma_find_first(s, c, k, i + 1);
    }
}

/// Splitting `a`, `c`, `b` at its first `c`, where `a` holds none, gives `a` and `b`.
proof fn lemma_split_at_first(a: Seq<char>, c: char, b: Seq<char>)
    requires
        forall|j: int| 0 <= j < a.len() ==> a[j] != c,
    ensures
        split_once(a + seq![c] + b, c) == Some((a, b)),
{
    let s = a + seq![c] + b;
    lemma_find_first(s, c, a.len() as int, 0);
    assert(s.take(a.len() as int) =~= a);
    assert(s.skip(a.len() as int + 1) =~= b);
}

proof fn lemma_unsigned_roundtrip(n: u32)
    ensures
        parsed_u32(crate::decimal::dec(n as nat)) == Some(n),
        forall|j: int| 0 <= j < crate::decimal::dec(n as nat).len() ==> crate::decimal::is_digit(
            #[trigger] crate::decimal::dec(n as nat)[j],
        ),
{
    crate::decimal::lemma_dec_shape(n as nat);
    let d = crate::decimal::dec(n as nat);
    assert(crate::decimal::is_digit(d[0]));
}

proof fn lemma_signed_roundtrip(x: i32)
    ensures
        parsed_i32(crate::decimal::signed_dec(x as int)) == Some(x),
        forall|j: int| 0 <= j < crate::decimal::signed_dec(x as int).len() ==> #[trigger] crate::decimal::signed_dec(x as int)[j]
            != '+' && crate::decimal::signed_dec(x as int)[j] != 'x',
{
    let s = crate::decimal::signed_dec(x as int);
    if x < 0 {
        let m = (-(x as int)) as nat;
        crate::decimal::lemma_dec_shape(m);
        let d = crate::decimal::dec(m);
        assert(s.drop_first() =~= d);
        assert forall|j: int| 0 <= j < s.len() implies s[j] != '+' && s[j] != 'x' by {
            if j > 0 {
                assert(s[j] == d[j - 1]);
                assert(crate::decimal::is_digit(d[j - 1]));
            }
        }
    } else {
        crate::decimal::lemma_dec_shape(x as nat);
        let d = crate::decimal::dec(x as nat);
        assert(crate::decimal::is_digit(d[0]));
        assert forall|j: int| 0 <= j < s.len() implies s[j] != '+' && s[j] != 'x' by {
            assert(crate::decimal::is_digit(d[j]));
        }
    }
}

/// What reading a region's own text gives: its parts parse back, so only the
/// emptiness check decides.
proof fn lemma_region_text_reads(g: Geometry)
    ensures
        geometry_of(crate::domain::region_text(g)) == if g.spec_is_empty() {
            Err::<Geometry, Seq<char>>("width and height must be non-zero"@)
        } else {
            Ok::<Geometry, Seq<char>>(g)
        },
{
    let w = crate::decimal::dec(g.width as nat);
    let h = crate::decimal::dec(g.height as nat);
    let x = crate::decimal::signed_dec(g.x as int);
    let y = crate::decimal::signed_dec(g.y as int);
    lemma_unsigned_roundtrip(g.width);
    lemma_unsigned_roundtrip(g.height);
    lemma_signed_roundtrip(g.x);
    lemma_signed_roundtrip(g.y);
    let size = w + seq!['x'] + h;
    let offsets = x + seq!['+'] + y;
    assert(crate::domain::region_text(g) =~= size + seq!['+'] + offsets);
    assert forall|j: int| 0 <= j < size.len() implies size[j] != '+' by {
        if j < w.len() {
            assert(size[j] == w[j]);
        } else if j > w.len() {
            assert(size[j] == h[j - w.len() - 1]);
        }
    }
    lemma_split_at_first(size, '+', offsets);
    lemma_split_at_first(w, 'x', h);
    lemma_split_at_first(x, '+', y);
}

/// A region written in the recorder's syntax reads back as the same region:
/// `parse_geometry` of `to_gsr_region` of a non-empty region is that region.
pub proof fn lemma_region_text_roundtrip(g: Geometry)
    requires
        !g.spec_is_empty(),
    ensures
        geometry_of(crate::domain::region_text(g)) == Ok::<Geometry, Seq<char>>(g),
{
    lemma_region_text_reads(g);
}

/// The text of an empty region is refused: `parse_geometry` of
/// `to_gsr_region` of a region with no width or no height says that width
/// and height must be non-zero.
pub proof fn lemma_empty_region_text_is_refused(g: Geometry)
    requires
        g.spec_is_empty(),
    ensures
        geometry_of(crate::domain::region_text(g)) == Err::<Geometry, Seq<char>>(
            "width and height must be non-zero"@,
        ),
{
    lemma_region_text_reads(g);
}

/// `PREFIX requires a name` when nothing follows the prefix.
pub open spec fn suffix_of(value: Seq<char>, prefix: Seq<char>) -> Result<Seq<char>, Seq<char>> {
    let suffix = if starts_with(value, prefix) {
        value.skip(prefix.len() as int)
    } else {
        Seq::empty()
    };
    if suffix.len() == 0 {
        Err(prefix + " requires a name"@)
    } else {
        Ok(suffix)
    }
}

pub fn nonempty_suffix(value: &str, prefix: &str) -> (r: Result<String, String>)
    ensures
        match suffix_of(value@, prefix@) {
            Ok(n) => r matches Ok(s) && s@ == n,
            Err(m) => r matches Err(e) && e@ == m,
        },
{
    let v = crate::text::chars_of(value);
    let p = crate::text::chars_of(prefix);
    let suffix = if crate::text::chars_start_with(v.as_slice(), p.as_slice()) {
        let s = crate::text::slice_range(v.as_slice(), p.len(), v.len());
        assert(s@ =~= value@.skip(prefix@.len() as int));
        s
    } else {
        Vec::new()
    };
    if suffix.len() == 0 {
        let mut m: Vec<char> = Vec::new();
        push_str(&mut m, prefix);
        push_str(&mut m, " requires a name");
        Err(crate::text::string_from(m.as_slice()))
    } else {
        Ok(crate::text::string_from(suffix.as_slice()))
    }
}

pub open spec fn audio_choices_message() -> Seq<char> {
    "expected default_output, default_input, device:NAME, app:NAME, or app-inverse:NAME"@
}

/// The value of `--audio`: a default source, or a named device or
/// application (`device:`, `app:`, `app-inverse:`) with a non-empty name.
pub open spec fn audio_source_parsed(v: Seq<char>, r: Result<AudioSource, String>) -> bool {
    if v == "default_output"@ {
        r == Ok::<AudioSource, String>(AudioSource::DefaultOutput)
    } else if v == "default_input"@ {
        r == Ok::<AudioSource, String>(AudioSource::DefaultInput)
    } else if starts_with(v, "device:"@) {
        match suffix_of(v, "device:"@) {
            Ok(n) => r matches Ok(AudioSource::Device { name }) && name@ == n,
            Err(m) => r matches Err(x) && x@ == m,
        }
    } else if starts_with(v, "app:"@) {
        match suffix_of(v, "app:"@) {
            Ok(n) => r matches Ok(AudioSource::Application { name }) && name@ == n,
            Err(m) => r matches Err(x) && x@ == m,
        }
    } else if starts_with(v, "app-inverse:"@) {
        match suffix_of(v, "app-inverse:"@) {
            Ok(n) => r matches Ok(AudioSource::ApplicationExcept { name }) && name@ == n,
            Err(m) => r matches Err(x) && x@ == m,
        }
    } else {
        r matches Err(x) && x@ == audio_choices_message()
    }
}

/// Two sources that name the same thing: the same kind, and equal names.
pub open spec fn same_source(a: AudioSource, b: AudioSource) -> bool {
    match (a, b) {
        (AudioSource::DefaultOutput, AudioSource::DefaultOutput) => true,
        (AudioSource::DefaultInput, AudioSource::DefaultInput) => true,
        (AudioSource::Device { name: x }, AudioSource::Device { name: y }) => x@ == y@,
        (AudioSource::Application { name: x }, AudioSource::Application { name: y }) => x@ == y@,
        (
            AudioSource::ApplicationExcept { name: x },
            AudioSource::ApplicationExcept { name: y },
        ) => x@ == y@,
        _ => false,
    }
}

/// A source whose name, where it has one, is not empty.
pub open spec fn named_source(s: AudioSource) -> bool {
    match s {
        AudioSource::Device { name } => name@.len() > 0,
        AudioSource::Application { name } => name@.len() > 0,
        AudioSource::ApplicationExcept { name } => name@.len() > 0,
        _ => true,
    }
}

/// A source written in the recorder's `-a` syntax reads back, through
/// `parse_audio_source`, as the same source, when its name is not empty.
pub proof fn lemma_audio_source_roundtrip(s: AudioSource, r: Result<AudioSource, String>)
    requires
        named_source(s),
        audio_source_parsed(crate::domain::source_text(s), r),
    ensures
        r matches Ok(t) && same_source(t, s),
{
    reveal_strlit("default_output");
    reveal_strlit("default_input");
    reveal_strlit("device:");
    reveal_strlit("app:");
    reveal_strlit("app-inverse:");
    let v = crate::domain::source_text(s);
    assert("default_output"@.len() != "default_input"@.len());
    match s {
        AudioSource::Device { name } => {
            assert(v[2] != "default_output"@[2]);
            assert(v[2] != "default_input"@[2]);
            assert(v.take(7) =~= "device:"@);
            assert(v.skip(7) =~= name@);
        },
        AudioSource::Application { name } => {
            assert(v[0] != "default_output"@[0]);
            assert(v[0] != "default_input"@[0]);
            assert(v[0] != "device:"@[0]);
            assert(v.take(4) =~= "app:"@);
            assert(v.skip(4) =~= name@);
        },
        AudioSource::ApplicationExcept { name } => {
            assert(v[0] != "default_output"@[0]);
            assert(v[0] != "default_input"@[0]);
            assert(v[0] != "device:"@[0]);
            assert(v[3] != "app:"@[3]);
            assert(v.take(12) =~= "app-inverse:"@);
            assert(v.skip(12) =~= name@);
        },
        _ => {},
    }
}

fn text_starts_with(v: &[char], p: &str) -> (b: bool)
    ensures
        b == starts_with(v@, p@),
{
    let pv = crate::text::chars_of(p);
    crate::text::chars_start_with(v, pv.as_slice())
}

pub fn parse_audio_source(value: &str) -> (r: Result<AudioSource, String>)
    ensures
        audio_source_parsed(value@, r),
{
    let v = crate::text::chars_of(value);
    if crate::text::str_eq(value, "default_output") {
        Ok(AudioSource::DefaultOutput)
    } else if crate::text::str_eq(value, "default_input") {
        Ok(AudioSource::DefaultInput)
    } else if text_starts_with(v.as_slice(), "device:") {
        match nonempty_suffix(value, "device:") {
            Ok(name) => Ok(AudioSource::Device { name }),
            Err(e) => Err(e),
        }
    } else if text_starts_with(v.as_slice(), "app:") {
        match nonempty_suffix(value, "app:") {
            Ok(name) => Ok(AudioSource::Application { name }),
            Err(e) => Err(e),
        }
    } else if text_starts_with(v.as_slice(), "app-inverse:") {
        match nonempty_suffix(value, "app-inverse:") {
            Ok(name) => Ok(AudioSource::ApplicationExcept { name }),
            Err(e) => Err(e),
        }
    } else {
        Err(
            owned(
                "expected default_output, default_input, device:NAME, app:NAME, or app-inverse:NAME",
            ),
        )
    }
}

/// A planned command as shell words, for reading only.
pub fn render_command(command: &crate::domain::PlannedCommand) -> (s: String)
    ensures
        s@ == crate::gsr_command::shell_line(command.program@, crate::text::texts(command.arguments@)),
{
    crate::gsr_command::shell_join(command)
}

/// The daemon must answer in this protocol version, to this request.
pub fn validate_response(request_id: u128, response: &ResponseEnvelope) -> (r: Result<(), CliError>)
    ensures
        response.protocol != PROTOCOL_VERSION ==> r == Err::<(), CliError>(
            CliError::ProtocolMismatch { expected: PROTOCOL_VERSION, actual: response.protocol },
        ),
        response.protocol == PROTOCOL_VERSION && response.request_id != request_id ==> r == Err::<
            (),
            CliError,
        >(CliError::MismatchedRequestId),
        response.protocol == PROTOCOL_VERSION && response.request_id == request_id ==> r is Ok,
{
    if response.protocol != PROTOCOL_VERSION {
        return Err(CliError::ProtocolMismatch { expected: PROTOCOL_VERSION, actual: response.protocol });
    }
    if response.request_id != request_id {
        return Err(CliError::MismatchedRequestId);
    }
    Ok(())
}

/// Events must come in this protocol version.
pub fn check_event_protocol(protocol: u16) -> (r: Result<(), CliError>)
    ensures
        protocol != PROTOCOL_VERSION ==> r == Err::<(), CliError>(
            CliError::ProtocolMismatch { expected: PROTOCOL_VERSION, actual: protocol },
        ),
        protocol == PROTOCOL_VERSION ==> r is Ok,
{
    if protocol != PROTOCOL_VERSION {
        return Err(CliError::ProtocolMismatch { expected: PROTOCOL_VERSION, actual: protocol });
    }
    Ok(())
}

/// A daemon error answer becomes the client's error; every other answer is success.
pub fn ensure_success(response: &Response) -> (r: Result<(), CliError>)
    ensures
        match *response {
            Response::Error { code, message, retryable, .. } => r == Err::<(), CliError>(
                CliError::Daemon { code, message, retryable },
            ),
            _ => r is Ok,
        },
{
    match response {
        Response::Error { code, message, retryable, .. } => Err(
            CliError::Daemon { code: code.clone(), message: message.clone(), retryable: *retryable },
        ),
        _ => Ok(()),
    }
}

/// Whether an event shows the awaited session ended: a snapshot of that
/// session in a terminal phase, or its file saved.
pub open spec fn reached_terminal(event: Event, expected: SessionId) -> bool {
    match event {
        Event::Snapshot { snapshot, .. } => snapshot.session_id == Some(expected)
            && snapshot.phase.spec_is_terminal(),
        Event::StateChanged { snapshot } => snapshot.session_id == Some(expected)
            && snapshot.phase.spec_is_terminal(),
        Event::FileSaved { session_id, .. } => session_id == expected,
        _ => false,
    }
}

pub fn session_reached_terminal(envelope: &EventEnvelope, expected: SessionId) -> (b: bool)
    ensures
        b == reached_terminal(envelope.event, expected),
{
    match &envelope.event {
        Event::Snapshot { snapshot, .. } => snapshot.session_id == Some(expected)
            && snapshot.phase.is_terminal(),
        Event::StateChanged { snapshot } => snapshot.session_id == Some(expected)
            && snapshot.phase.is_terminal(),
        Event::FileSaved { session_id, .. } => *session_id == expected,
        _ => false,
    }
}

/// The client may start the daemon through systemd only for the default
/// socket, and only when not told otherwise.
pub fn autostart_allowed(no_autostart: bool, custom_socket: bool) -> (b: bool)
    ensures
        b == (!no_autostart && !custom_socket),
{
    !no_autostart && !custom_socket
}

/// The client's commands.
#[derive(Clone, Debug)]
pub enum CliCommand {
    Status,
    Capabilities { refresh: bool },
    Plan(RecordingArguments),
    Start(RecordingArguments),
    Stop { expected_session_id: Option<SessionId>, force: bool, wait: bool },
    Pause { expected_session_id: Option<SessionId>, toggle: bool },
    Resume { expected_session_id: Option<SessionId> },
    Watch,
    Menu { print: bool, compact: bool },
    Reload,
    Doctor { bundle: Option<String> },
}

/// Whether a command needs the daemon's current session first: to fill in
/// a session it does not name, or to choose between pause and resume.
pub open spec fn needs_current(c: CliCommand) -> bool {
    match c {
        CliCommand::Stop { expected_session_id, .. } => expected_session_id is None,
        CliCommand::Pause { expected_session_id, toggle } => toggle || expected_session_id is None,
        CliCommand::Resume { expected_session_id } => expected_session_id is None,
        _ => false,
    }
}

pub fn needs_current_session(command: &CliCommand) -> (b: bool)
    ensures
        b == needs_current(*command),
{
    match command {
        CliCommand::Stop { expected_session_id, .. } => expected_session_id.is_none(),
        CliCommand::Pause { expected_session_id, toggle } => *toggle || expected_session_id.is_none(),
        CliCommand::Resume { expected_session_id } => expected_session_id.is_none(),
        _ => false,
    }
}

pub open spec fn no_session_message() -> Seq<char> {
    "there is no active session; pass --session when controlling a recording"@
}

fn session_or_current(named: Option<SessionId>, current: &Option<SessionSnapshot>) -> (r: Result<
    SessionId,
    CliError,
>)
    ensures
        named matches Some(id) ==> r == Ok::<SessionId, CliError>(id),
        named is None && (current matches Some(s) && s.session_id is Some) ==> r == Ok::<
            SessionId,
            CliError,
        >(current->0.session_id->0),
        named is None && !(current matches Some(s) && s.session_id is Some) ==> (r matches Err(
            CliError::InvalidArguments(m),
        ) && m@ == no_session_message()),
{
    match named {
        Some(id) => Ok(id),
        None => match current {
            Some(s) => match s.session_id {
                Some(id) => Ok(id),
                None => Err(CliError::InvalidArguments(owned("there is no active session; pass --session when controlling a recording"))),
            },
            None => Err(CliError::InvalidArguments(owned("there is no active session; pass --session when controlling a recording"))),
        },
    }
}

/// The request a command sends, given the current session when it needs one.
/// `watch` and `menu` send none here: they hold their own connection.
pub fn request_for(command: CliCommand, current: Option<SessionSnapshot>) -> (r: Result<Option<Request>, CliError>)
    requires
        needs_current(command) ==> current is Some,
    ensures
        match command {
            CliCommand::Status => r matches Ok(Some(Request::Status)),
            CliCommand::Capabilities { refresh } => r matches Ok(Some(Request::Capabilities { refresh: x })) && x == refresh,
            CliCommand::Plan(a) => match requested_target(a) {
                Err(m) => r matches Err(CliError::InvalidArguments(x)) && x@ == m,
                Ok(t) => r matches Ok(Some(Request::Plan { request })) && request_matches(a, request, t),
            },
            CliCommand::Start(a) => match requested_target(a) {
                Err(m) => r matches Err(CliError::InvalidArguments(x)) && x@ == m,
                Ok(t) => r matches Ok(Some(Request::Start { request })) && request_matches(a, request, t),
            },
            CliCommand::Stop { expected_session_id, force, .. } => match expected_session_id {
                Some(id) => r matches Ok(Some(Request::Stop { expected_session_id: e, force: f })) && e == id && f == force,
                None => match current->0.session_id {
                    Some(id) => r matches Ok(Some(Request::Stop { expected_session_id: e, force: f })) && e == id && f == force,
                    None => r matches Err(CliError::InvalidArguments(m)) && m@ == no_session_message(),
                },
            },
            CliCommand::Pause { expected_session_id, toggle } => if toggle {
                match (if expected_session_id is Some { expected_session_id } else { current->0.session_id }) {
                    Some(id) => if current->0.paused {
                        r matches Ok(Some(Request::Resume { expected_session_id: e })) && e == id
                    } else {
                        r matches Ok(Some(Request::Pause { expected_session_id: e })) && e == id
                    },
                    None => r matches Err(CliError::InvalidArguments(m)) && m@ == no_session_message(),
                }
            } else {
                match (if expected_session_id is Some { expected_session_id } else { current->0.session_id }) {
                    Some(id) => r matches Ok(Some(Request::Pause { expected_session_id: e })) && e == id,
                    None => r matches Err(CliError::InvalidArguments(m)) && m@ == no_session_message(),
                }
            },
            CliCommand::Resume { expected_session_id } => match (if expected_session_id is Some { expected_session_id } else { current->0.session_id }) {
                Some(id) => r matches Ok(Some(Request::Resume { expected_session_id: e })) && e == id,
                None => r matches Err(CliError::InvalidArguments(m)) && m@ == no_session_message(),
            },
            CliCommand::Watch => r matches Ok(None),
            CliCommand::Menu { .. } => r matches Ok(None),
            CliCommand::Reload => r matches Ok(Some(Request::Reload)),
            CliCommand::Doctor { .. } => r matches Ok(Some(Request::Doctor)),
        },
{
    match command {
        CliCommand::Status => Ok(Some(Request::Status)),
        CliCommand::Capabilities { refresh } => Ok(Some(Request::Capabilities { refresh })),
        CliCommand::Plan(arguments) => match arguments.into_request() {
            Ok(request) => Ok(Some(Request::Plan { request })),
            Err(e) => Err(e),
        },
        CliCommand::Start(arguments) => match arguments.into_request() {
            Ok(request) => Ok(Some(Request::Start { request })),
            Err(e) => Err(e),
        },
        CliCommand::Stop { expected_session_id, force, .. } => match session_or_current(expected_session_id, &current) {
            Ok(id) => Ok(Some(Request::Stop { expected_session_id: id, force })),
            Err(e) => Err(e),
        },
        CliCommand::Pause { expected_session_id, toggle } => {
            match session_or_current(expected_session_id, &current) {
                Ok(id) => {
                    if toggle && current.unwrap().paused {
                        Ok(Some(Request::Resume { expected_session_id: id }))
                    } else {
                        Ok(Some(Request::Pause { expected_session_id: id }))
                    }
                },
                Err(e) => Err(e),
            }
        },
        CliCommand::Resume { expected_session_id } => match session_or_current(expected_session_id, &current) {
            Ok(id) => Ok(Some(Request::Resume { expected_session_id: id })),
            Err(e) => Err(e),
        },
        CliCommand::Watch => Ok(None),
        CliCommand::Menu { .. } => Ok(None),
        CliCommand::Reload => Ok(Some(Request::Reload)),
        CliCommand::Doctor { .. } => Ok(Some(Request::Doctor)),
    }
}

} // verus!
