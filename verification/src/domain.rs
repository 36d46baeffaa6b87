//! Domain types shared by the daemon, the CLI and the adapters.

use vstd::prelude::*;
use crate::decimal::{dec, signed_dec};
use crate::text::{join, push_str, str_eq, texts};

verus! {

#[derive(Clone, Copy, Debug, PartialEq, Eq, Structural)]
pub struct Geometry {
    pub x: i32,
    pub y: i32,
    pub width: u32,
    pub height: u32,
}

/// `WIDTHxHEIGHT+X+Y`, the region syntax of the recorder.
pub open spec fn region_text(g: Geometry) -> Seq<char> {
    dec(g.width as nat) + seq!['x'] + dec(g.height as nat) + seq!['+'] + signed_dec(g.x as int)
        + seq!['+'] + signed_dec(g.y as int)
}

impl Geometry {
    pub open spec fn spec_is_empty(self) -> bool {
        self.width == 0 || self.height == 0
    }

    pub fn is_empty(self) -> (b: bool)
        ensures
            b == self.spec_is_empty(),
    {
        self.width == 0 || self.height == 0
    }

    pub fn push_gsr_region(self, out: &mut Vec<char>)
        ensures
            final(out)@ == old(out)@ + region_text(self),
    {
        crate::decimal::push_dec(out, self.width as u64);
        out.push('x');
        crate::decimal::push_dec(out, self.height as u64);
        out.push('+');
        crate::decimal::push_signed(out, self.x as i64);
        out.push('+');
        crate::decimal::push_signed(out, self.y as i64);
        assert(final(out)@ =~= old(out)@ + region_text(self));
    }

    pub fn to_gsr_region(self) -> (s: String)
        ensures
            s@ == region_text(self),
    {
        let mut v: Vec<char> = Vec::new();
        self.push_gsr_region(&mut v);
        assert(v@ =~= region_text(self));
        crate::text::string_from(v.as_slice())
    }
}

/// Coordinate space of a region request. The selector is the authority; the daemon never relabels.
#[derive(Clone, Copy, Debug, PartialEq, Eq, Structural)]
pub enum CoordinateSpace {
    Logical,
    PhysicalPixels,
}

/// Topology evidence captured with a region so start-time revalidation can detect staleness.
#[derive(Clone, Debug, PartialEq, Eq)]
pub struct RegionEvidence {
    pub monitor: Option<String>,
    pub scale: Option<String>,
    pub transform: Option<i32>,
}

impl RegionEvidence {
    pub fn copy(&self) -> (r: Self)
        ensures
            r == *self,
    {
        RegionEvidence {
            monitor: crate::text::copy_opt_string(&self.monitor),
            scale: crate::text::copy_opt_string(&self.scale),
            transform: self.transform,
        }
    }
}

impl Default for RegionEvidence {
    fn default() -> (r: Self)
        ensures
            r.monitor is None && r.scale is None && r.transform is None,
    {
        RegionEvidence { monitor: None, scale: None, transform: None }
    }
}

#[derive(Clone, Debug, PartialEq, Eq)]
pub enum CaptureTarget {
    /// A concrete compositor connector name, for example `DP-1`.
    Monitor { name: String },
    /// A rectangle tagged with the coordinate space emitted by the selector.
    Region { geometry: Geometry, coordinate_space: CoordinateSpace, evidence: RegionEvidence },
    /// Let the desktop portal perform selection and capture.
    Portal { restore_token_file: Option<String> },
}

pub open spec fn target_summary(t: CaptureTarget) -> Seq<char> {
    match t {
        CaptureTarget::Monitor { name } => "monitor "@ + name@,
        CaptureTarget::Region { geometry, coordinate_space, .. } => "region "@ + region_text(
            geometry,
        ) + " ("@ + (match coordinate_space {
            CoordinateSpace::Logical => "logical"@,
            CoordinateSpace::PhysicalPixels => "physical"@,
        }) + ")"@,
        CaptureTarget::Portal { .. } => "portal"@,
    }
}

impl CaptureTarget {
    pub fn copy(&self) -> (r: Self)
        ensures
            r == *self,
    {
        match self {
            CaptureTarget::Monitor { name } => CaptureTarget::Monitor { name: name.clone() },
            CaptureTarget::Region { geometry, coordinate_space, evidence } => CaptureTarget::Region {
                geometry: *geometry,
                coordinate_space: *coordinate_space,
                evidence: evidence.copy(),
            },
            CaptureTarget::Portal { restore_token_file } => CaptureTarget::Portal {
                restore_token_file: crate::text::copy_opt_string(restore_token_file),
            },
        }
    }

    pub fn summary(&self) -> (s: String)
        ensures
            s@ == target_summary(*self),
    {
        let mut v: Vec<char> = Vec::new();
        match self {
            CaptureTarget::Monitor { name } => {
                push_str(&mut v, "monitor ");
                push_str(&mut v, name.as_str());
            },
            CaptureTarget::Region { geometry, coordinate_space, .. } => {
                push_str(&mut v, "region ");
                geometry.push_gsr_region(&mut v);
                push_str(&mut v, " (");
                match coordinate_space {
                    CoordinateSpace::Logical => push_str(&mut v, "logical"),
                    CoordinateSpace::PhysicalPixels => push_str(&mut v, "physical"),
                }
                push_str(&mut v, ")");
            },
            CaptureTarget::Portal { .. } => {
                push_str(&mut v, "portal");
            },
        }
        assert(v@ =~= target_summary(*self));
        crate::text::string_from(v.as_slice())
    }
}

#[derive(Clone, Debug, PartialEq, Eq)]
pub enum AudioSource {
    DefaultOutput,
    DefaultInput,
    Device { name: String },
    Application { name: String },
    ApplicationExcept { name: String },
}

/// The recorder's `-a` syntax for one source.
pub open spec fn source_text(s: AudioSource) -> Seq<char> {
    match s {
        AudioSource::DefaultOutput => "default_output"@,
        AudioSource::DefaultInput => "default_input"@,
        AudioSource::Device { name } => "device:"@ + name@,
        AudioSource::Application { name } => "app:"@ + name@,
        AudioSource::ApplicationExcept { name } => "app-inverse:"@ + name@,
    }
}

impl AudioSource {
    pub open spec fn spec_is_desktop(&self) -> bool {
        self is DefaultOutput || self is Application || self is ApplicationExcept
    }

    pub open spec fn spec_is_microphone(&self) -> bool {
        self is DefaultInput || self is Device
    }

    pub fn copy(&self) -> (r: Self)
        ensures
            r == *self,
    {
        match self {
            AudioSource::DefaultOutput => AudioSource::DefaultOutput,
            AudioSource::DefaultInput => AudioSource::DefaultInput,
            AudioSource::Device { name } => AudioSource::Device { name: name.clone() },
            AudioSource::Application { name } => AudioSource::Application { name: name.clone() },
            AudioSource::ApplicationExcept { name } => AudioSource::ApplicationExcept {
                name: name.clone(),
            },
        }
    }

    pub fn push_gsr_value(&self, out: &mut Vec<char>)
        ensures
            final(out)@ == old(out)@ + source_text(*self),
    {
        match self {
            AudioSource::DefaultOutput => push_str(out, "default_output"),
            AudioSource::DefaultInput => push_str(out, "default_input"),
            AudioSource::Device { name } => {
                push_str(out, "device:");
                push_str(out, name.as_str());
            },
            AudioSource::Application { name } => {
                push_str(out, "app:");
                push_str(out, name.as_str());
            },
            AudioSource::ApplicationExcept { name } => {
                push_str(out, "app-inverse:");
                push_str(out, name.as_str());
            },
        }
        assert(final(out)@ =~= old(out)@ + source_text(*self));
    }

    pub fn to_gsr_value(&self) -> (s: String)
        ensures
            s@ == source_text(*self),
    {
        let mut v: Vec<char> = Vec::new();
        self.push_gsr_value(&mut v);
        assert(v@ =~= source_text(*self));
        crate::text::string_from(v.as_slice())
    }

    pub fn is_desktop(&self) -> (b: bool)
        ensures
            b == self.spec_is_desktop(),
    {
        match self {
            AudioSource::DefaultOutput | AudioSource::Application { .. }
            | AudioSource::ApplicationExcept { .. } => true,
            _ => false,
        }
    }

    pub fn is_microphone(&self) -> (b: bool)
        ensures
            b == self.spec_is_microphone(),
    {
        match self {
            AudioSource::DefaultInput | AudioSource::Device { .. } => true,
            _ => false,
        }
    }
}

/// Sources in one track are mixed with `|`; separate tracks become separate `-a` arguments.
#[derive(Clone, Debug, PartialEq, Eq)]
pub struct AudioTrack {
    pub sources: Vec<AudioSource>,
}

impl View for AudioTrack {
    type V = Seq<AudioSource>;

    open spec fn view(&self) -> Seq<AudioSource> {
        self.sources@
    }
}

impl DeepView for AudioTrack {
    type V = Seq<AudioSource>;

    open spec fn deep_view(&self) -> Seq<AudioSource> {
        self.sources@
    }
}

pub open spec fn source_texts(s: Seq<AudioSource>) -> Seq<Seq<char>> {
    s.map_values(|x: AudioSource| source_text(x))
}

/// The `-a` value of a track: its sources joined with `|`.
pub open spec fn track_text(t: Seq<AudioSource>) -> Seq<char> {
    join(source_texts(t), "|"@)
}

/// Whether some track has no source.
pub open spec fn has_empty_track(tracks: Seq<Seq<AudioSource>>) -> bool {
    exists|i: int| 0 <= i < tracks.len() && #[trigger] tracks[i].len() == 0
}

pub fn any_empty_track(tracks: &Vec<AudioTrack>) -> (b: bool)
    ensures
        b == has_empty_track(tracks.deep_view()),
{
    let mut i: usize = 0;
    while i < tracks.len()
        invariant
            i <= tracks@.len(),
            forall|k: int| 0 <= k < i ==> #[trigger] tracks.deep_view()[k].len() > 0,
        decreases tracks@.len() - i,
    {
        if tracks[i].sources.len() == 0 {
            assert(tracks.deep_view()[i as int].len() == 0);
            return true;
        }
        i = i + 1;
    }
    false
}

pub fn copy_sources(v: &Vec<AudioSource>) -> (r: Vec<AudioSource>)
    ensures
        r@ == v@,
{
    let mut r: Vec<AudioSource> = Vec::new();
    let mut i: usize = 0;
    while i < v.len()
        invariant
            i <= v@.len(),
            r@ == v@.take(i as int),
        decreases v@.len() - i,
    {
        r.push(v[i].copy());
        i = i + 1;
        assert(r@ =~= v@.take(i as int));
    }
    assert(v@.take(v@.len() as int) =~= v@);
    r
}

pub fn copy_tracks(v: &Vec<AudioTrack>) -> (r: Vec<AudioTrack>)
    ensures
        r.deep_view() == v.deep_view(),
{
    let mut r: Vec<AudioTrack> = Vec::new();
    let mut i: usize = 0;
    while i < v.len()
        invariant
            i <= v@.len(),
            r@.len() == i,
            r.deep_view() == v.deep_view().take(i as int),
        decreases v@.len() - i,
    {
        let ghost before = r@;
        let c = v[i].copy();
        r.push(c);
        assert(r@ == before.push(c));
        assert forall|k: int| 0 <= k < i + 1 implies #[trigger] r.deep_view()[k] == v.deep_view()[k] by {
            if k < i {
                assert(r@[k] == before[k]);
                assert(before[k].deep_view() == v.deep_view().take(i as int)[k]);
            }
        }
        i = i + 1;
        assert(r.deep_view() =~= v.deep_view().take(i as int));
    }
    assert(v.deep_view().take(v@.len() as int) =~= v.deep_view());
    r
}

impl AudioTrack {
    pub fn mixed(sources: Vec<AudioSource>) -> (t: Self)
        ensures
            t.sources == sources,
    {
        AudioTrack { sources }
    }

    pub fn copy(&self) -> (r: Self)
        ensures
            r@ == self@,
    {
        AudioTrack { sources: copy_sources(&self.sources) }
    }

    /// Appends the sources joined with `|`.
    pub fn push_sources(&self, out: &mut Vec<char>)
        ensures
            final(out)@ == old(out)@ + track_text(self@),
    {
        let ghost start = out@;
        let ghost all = source_texts(self.sources@);
        let mut i: usize = 0;
        assert(all.take(0) =~= Seq::<Seq<char>>::empty());
        assert(out@ =~= start + join(all.take(0), "|"@));
        while i < self.sources.len()
            invariant
                i <= self.sources@.len(),
                all == source_texts(self.sources@),
                out@ == start + join(all.take(i as int), "|"@),
            decreases self.sources@.len() - i,
        {
            let ghost prefix = all.take(i as int + 1);
            assert(prefix.drop_last() =~= all.take(i as int));
            assert(prefix.last() == source_text(self.sources@[i as int]));
            if i > 0 {
                push_str(out, "|");
            }
            self.sources[i].push_gsr_value(out);
            i = i + 1;
            if i == 1 {
                assert(out@ =~= start + join(prefix, "|"@));
            } else {
                assert(out@ =~= start + join(prefix, "|"@));
            }
        }
        assert(all.take(self.sources@.len() as int) =~= all);
    }

    pub fn to_gsr_value(&self) -> (r: Result<String, SpecValidationError>)
        ensures
            self.sources@.len() == 0 ==> r == Err::<String, _>(SpecValidationError::EmptyAudioTrack),
            self.sources@.len() > 0 ==> (r matches Ok(s) && s@ == track_text(self@)),
    {
        if self.sources.len() == 0 {
            return Err(SpecValidationError::EmptyAudioTrack);
        }
        let mut v: Vec<char> = Vec::new();
        self.push_sources(&mut v);
        assert(v@ =~= track_text(self@));
        Ok(crate::text::string_from(v.as_slice()))
    }
}

#[derive(Clone, Copy, Debug, PartialEq, Eq, Structural)]
pub enum Codec {
    Auto,
    H264,
    Hevc,
    HevcHdr,
    Av1,
    Av1Hdr,
    Vp8,
    Vp9,
}

pub open spec fn codec_name(c: Codec) -> Seq<char> {
    match c {
        Codec::Auto => "auto"@,
        Codec::H264 => "h264"@,
        Codec::Hevc => "hevc"@,
        Codec::HevcHdr => "hevc_hdr"@,
        Codec::Av1 => "av1"@,
        Codec::Av1Hdr => "av1_hdr"@,
        Codec::Vp8 => "vp8"@,
        Codec::Vp9 => "vp9"@,
    }
}

pub open spec fn codec_from_name(s: Seq<char>) -> Option<Codec> {
    if s == "auto"@ {
        Some(Codec::Auto)
    } else if s == "h264"@ {
        Some(Codec::H264)
    } else if s == "hevc"@ {
        Some(Codec::Hevc)
    } else if s == "hevc_hdr"@ {
        Some(Codec::HevcHdr)
    } else if s == "av1"@ {
        Some(Codec::Av1)
    } else if s == "av1_hdr"@ {
        Some(Codec::Av1Hdr)
    } else if s == "vp8"@ {
        Some(Codec::Vp8)
    } else if s == "vp9"@ {
        Some(Codec::Vp9)
    } else {
        None
    }
}

/// Distinct frame modes and alignments have distinct recorder names, so the
/// recorder is told the one the specification chose.
pub proof fn lemma_recorder_names_distinct(
    m1: FrameMode,
    m2: FrameMode,
    h1: HorizontalAlign,
    h2: HorizontalAlign,
    v1: VerticalAlign,
    v2: VerticalAlign,
)
    ensures
        m1 != m2 ==> frame_mode_name(m1) != frame_mode_name(m2),
        h1 != h2 ==> halign_name(h1) != halign_name(h2),
        v1 != v2 ==> valign_name(v1) != valign_name(v2),
{
    reveal_strlit("cfr");
    reveal_strlit("vfr");
    reveal_strlit("content");
    reveal_strlit("start");
    reveal_strlit("center");
    reveal_strlit("end");
    assert("cfr"@[0] != "vfr"@[0]);
    assert("cfr"@.len() != "content"@.len());
    assert("vfr"@.len() != "content"@.len());
    assert("start"@[1] != "center"@[1]);
    assert("start"@.len() != "end"@.len());
    assert("center"@.len() != "end"@.len());
}

/// Every codec's recorder name reads back as that codec.
pub proof fn lemma_codec_name_roundtrip(c: Codec)
    ensures
        codec_from_name(codec_name(c)) == Some(c),
{
    reveal_strlit("auto");
    reveal_strlit("h264");
    reveal_strlit("hevc");
    reveal_strlit("hevc_hdr");
    reveal_strlit("av1");
    reveal_strlit("av1_hdr");
    reveal_strlit("vp8");
    reveal_strlit("vp9");
    assert("h264"@[0] != "auto"@[0]);
    assert("hevc"@[0] != "auto"@[0]);
    assert("hevc"@[1] != "h264"@[1]);
    assert("hevc_hdr"@.len() != "auto"@.len());
    assert("hevc_hdr"@.len() != "h264"@.len());
    assert("hevc_hdr"@.len() != "hevc"@.len());
    assert("av1"@.len() != "auto"@.len());
    assert("av1"@.len() != "h264"@.len());
    assert("av1"@.len() != "hevc"@.len());
    assert("av1"@.len() != "hevc_hdr"@.len());
    assert("av1_hdr"@.len() != "auto"@.len());
    assert("av1_hdr"@.len() != "h264"@.len());
    assert("av1_hdr"@.len() != "hevc"@.len());
    assert("av1_hdr"@.len() != "hevc_hdr"@.len());
    assert("av1_hdr"@.len() != "av1"@.len());
    assert("vp8"@.len() != "auto"@.len());
    assert("vp8"@.len() != "h264"@.len());
    assert("vp8"@.len() != "hevc"@.len());
    assert("vp8"@.len() != "hevc_hdr"@.len());
    assert("vp8"@[0] != "av1"@[0]);
    assert("vp8"@.len() != "av1_hdr"@.len());
    assert("vp9"@.len() != "auto"@.len());
    assert("vp9"@.len() != "h264"@.len());
    assert("vp9"@.len() != "hevc"@.len());
    assert("vp9"@.len() != "hevc_hdr"@.len());
    assert("vp9"@[0] != "av1"@[0]);
    assert("vp9"@.len() != "av1_hdr"@.len());
    assert("vp9"@[2] != "vp8"@[2]);
}

impl Codec {
    pub open spec fn spec_is_hdr(self) -> bool {
        self is HevcHdr || self is Av1Hdr
    }

    pub fn as_gsr_value(self) -> (s: &'static str)
        ensures
            s@ == codec_name(self),
    {
        match self {
            Codec::Auto => "auto",
            Codec::H264 => "h264",
            Codec::Hevc => "hevc",
            Codec::HevcHdr => "hevc_hdr",
            Codec::Av1 => "av1",
            Codec::Av1Hdr => "av1_hdr",
            Codec::Vp8 => "vp8",
            Codec::Vp9 => "vp9",
        }
    }

    pub fn is_hdr(self) -> (b: bool)
        ensures
            b == self.spec_is_hdr(),
    {
        match self {
            Codec::HevcHdr | Codec::Av1Hdr => true,
            _ => false,
        }
    }

    pub fn from_gsr_value(value: &str) -> (r: Option<Codec>)
        ensures
            r == codec_from_name(value@),
    {
        if str_eq(value, "auto") {
            Some(Codec::Auto)
        } else if str_eq(value, "h264") {
            Some(Codec::H264)
        } else if str_eq(value, "hevc") {
            Some(Codec::Hevc)
        } else if str_eq(value, "hevc_hdr") {
            Some(Codec::HevcHdr)
        } else if str_eq(value, "av1") {
            Some(Codec::Av1)
        } else if str_eq(value, "av1_hdr") {
            Some(Codec::Av1Hdr)
        } else if str_eq(value, "vp8") {
            Some(Codec::Vp8)
        } else if str_eq(value, "vp9") {
            Some(Codec::Vp9)
        } else {
            None
        }
    }
}

impl Default for Codec {
    fn default() -> (c: Self)
        ensures
            c == Codec::Auto,
    {
        Codec::Auto
    }
}

#[derive(Clone, Copy, Debug, PartialEq, Eq, Structural)]
pub enum FrameMode {
    Constant,
    Variable,
    Content,
}

pub open spec fn frame_mode_name(m: FrameMode) -> Seq<char> {
    match m {
        FrameMode::Constant => "cfr"@,
        FrameMode::Variable => "vfr"@,
        FrameMode::Content => "content"@,
    }
}

impl FrameMode {
    pub fn as_gsr_value(self) -> (s: &'static str)
        ensures
            s@ == frame_mode_name(self),
    {
        match self {
            FrameMode::Constant => "cfr",
            FrameMode::Variable => "vfr",
            FrameMode::Content => "content",
        }
    }
}

impl Default for FrameMode {
    fn default() -> (m: Self)
        ensures
            m == FrameMode::Constant,
    {
        FrameMode::Constant
    }
}

#[derive(Clone, Copy, Debug, PartialEq, Eq, Structural)]
pub enum Container {
    Mp4,
    Mkv,
    Webm,
}

pub open spec fn container_extension(c: Container) -> Seq<char> {
    match c {
        Container::Mp4 => "mp4"@,
        Container::Mkv => "mkv"@,
        Container::Webm => "webm"@,
    }
}

pub open spec fn container_from_extension(s: Seq<char>) -> Option<Container> {
    if s == "mp4"@ {
        Some(Container::Mp4)
    } else if s == "mkv"@ {
        Some(Container::Mkv)
    } else if s == "webm"@ {
        Some(Container::Webm)
    } else {
        None
    }
}

/// Every container's file extension reads back as that container.
pub proof fn lemma_container_extension_roundtrip(c: Container)
    ensures
        container_from_extension(container_extension(c)) == Some(c),
{
    reveal_strlit("mp4");
    reveal_strlit("mkv");
    reveal_strlit("webm");
    assert("mkv"@[1] != "mp4"@[1]);
    assert("webm"@.len() != "mp4"@.len());
    assert("webm"@.len() != "mkv"@.len());
}

impl Container {
    pub fn extension(self) -> (s: &'static str)
        ensures
            s@ == container_extension(self),
    {
        match self {
            Container::Mp4 => "mp4",
            Container::Mkv => "mkv",
            Container::Webm => "webm",
        }
    }

    pub fn from_extension(extension: &str) -> (r: Option<Container>)
        ensures
            r == container_from_extension(extension@),
    {
        if str_eq(extension, "mp4") {
            Some(Container::Mp4)
        } else if str_eq(extension, "mkv") {
            Some(Container::Mkv)
        } else if str_eq(extension, "webm") {
            Some(Container::Webm)
        } else {
            None
        }
    }
}

impl Default for Container {
    fn default() -> (c: Self)
        ensures
            c == Container::Mp4,
    {
        Container::Mp4
    }
}

#[derive(Clone, Copy, Debug, PartialEq, Eq, Structural)]
pub enum CaptureBackend {
    Auto,
    Direct,
    Portal,
}

impl Default for CaptureBackend {
    fn default() -> (b: Self)
        ensures
            b == CaptureBackend::Auto,
    {
        CaptureBackend::Auto
    }
}

#[derive(Clone, Copy, Debug, PartialEq, Eq, Structural)]
pub enum HorizontalAlign {
    Start,
    Center,
    End,
}

pub open spec fn halign_name(a: HorizontalAlign) -> Seq<char> {
    match a {
        HorizontalAlign::Start => "start"@,
        HorizontalAlign::Center => "center"@,
        HorizontalAlign::End => "end"@,
    }
}

impl HorizontalAlign {
    pub fn as_gsr_value(self) -> (s: &'static str)
        ensures
            s@ == halign_name(self),
    {
        match self {
            HorizontalAlign::Start => "start",
            HorizontalAlign::Center => "center",
            HorizontalAlign::End => "end",
        }
    }
}

impl Default for HorizontalAlign {
    fn default() -> (a: Self)
        ensures
            a == HorizontalAlign::End,
    {
        HorizontalAlign::End
    }
}

#[derive(Clone, Copy, Debug, PartialEq, Eq, Structural)]
pub enum VerticalAlign {
    Start,
    Center,
    End,
}

pub open spec fn valign_name(a: VerticalAlign) -> Seq<char> {
    match a {
        VerticalAlign::Start => "start"@,
        VerticalAlign::Center => "center"@,
        VerticalAlign::End => "end"@,
    }
}

impl VerticalAlign {
    pub fn as_gsr_value(self) -> (s: &'static str)
        ensures
            s@ == valign_name(self),
    {
        match self {
            VerticalAlign::Start => "start",
            VerticalAlign::Center => "center",
            VerticalAlign::End => "end",
        }
    }
}

impl Default for VerticalAlign {
    fn default() -> (a: Self)
        ensures
            a == VerticalAlign::End,
    {
        VerticalAlign::End
    }
}

#[derive(Clone, Debug, PartialEq, Eq)]
pub struct WebcamConfig {
    pub device: String,
    pub width_percent: u8,
    pub height_percent: u8,
    pub horizontal_align: HorizontalAlign,
    pub vertical_align: VerticalAlign,
    pub horizontal_flip: bool,
    pub vertical_flip: bool,
    pub camera_width: Option<u32>,
    pub camera_height: Option<u32>,
    pub camera_fps: Option<u32>,
}

/// `DEVICE WxH%`.
pub open spec fn webcam_summary(w: WebcamConfig) -> Seq<char> {
    w.device@ + " "@ + dec(w.width_percent as nat) + "x"@ + dec(w.height_percent as nat) + "%"@
}

pub fn default_webcam_percent() -> (p: u8)
    ensures
        p == 25,
{
    25
}

pub fn default_true() -> (b: bool)
    ensures
        b,
{
    true
}

impl WebcamConfig {
    pub fn copy(&self) -> (r: Self)
        ensures
            r == *self,
    {
        WebcamConfig {
            device: self.device.clone(),
            width_percent: self.width_percent,
            height_percent: self.height_percent,
            horizontal_align: self.horizontal_align,
            vertical_align: self.vertical_align,
            horizontal_flip: self.horizontal_flip,
            vertical_flip: self.vertical_flip,
            camera_width: self.camera_width,
            camera_height: self.camera_height,
            camera_fps: self.camera_fps,
        }
    }

    pub fn summary(&self) -> (s: String)
        ensures
            s@ == webcam_summary(*self),
    {
        let mut v: Vec<char> = Vec::new();
        push_str(&mut v, self.device.as_str());
        push_str(&mut v, " ");
        crate::decimal::push_dec(&mut v, self.width_percent as u64);
        push_str(&mut v, "x");
        crate::decimal::push_dec(&mut v, self.height_percent as u64);
        push_str(&mut v, "%");
        assert(v@ =~= webcam_summary(*self));
        crate::text::string_from(v.as_slice())
    }
}

pub fn copy_opt_webcam(w: &Option<WebcamConfig>) -> (r: Option<WebcamConfig>)
    ensures
        r == *w,
{
    match w {
        Some(c) => Some(c.copy()),
        None => None,
    }
}

impl Default for WebcamConfig {
    fn default() -> (w: Self)
        ensures
            w.device@ == Seq::<char>::empty(),
            w.width_percent == 25 && w.height_percent == 25,
            w.horizontal_align == HorizontalAlign::End,
            w.vertical_align == VerticalAlign::End,
            w.horizontal_flip && !w.vertical_flip,
            w.camera_width is None && w.camera_height is None && w.camera_fps is None,
    {
        WebcamConfig {
            device: String::new(),
            width_percent: default_webcam_percent(),
            height_percent: default_webcam_percent(),
            horizontal_align: HorizontalAlign::End,
            vertical_align: VerticalAlign::End,
            horizontal_flip: default_true(),
            vertical_flip: false,
            camera_width: None,
            camera_height: None,
            camera_fps: None,
        }
    }
}

#[derive(Clone, Copy, Debug, PartialEq, Eq, Structural)]
pub enum PostprocessMode {
    /// Trust the file acknowledged by the recorder; validate and promote it atomically.
    ValidateOnly,
    /// Reproduce the Omarchy ffmpeg trim/normalization behaviour during migration.
    OmarchyCompat,
}

impl Default for PostprocessMode {
    fn default() -> (m: Self)
        ensures
            m == PostprocessMode::ValidateOnly,
    {
        PostprocessMode::ValidateOnly
    }
}

/// Optional fields a client may send. Unset values inherit from the selected profile.
#[derive(Clone, Debug, PartialEq, Eq)]
pub struct RequestOverrides {
    pub fps: Option<u16>,
    pub codec: Option<Codec>,
    pub frame_mode: Option<FrameMode>,
    pub container: Option<Container>,
    pub fallback_cpu_encoding: Option<bool>,
    pub audio_tracks: Option<Vec<AudioTrack>>,
    pub webcam: Option<WebcamConfig>,
    pub postprocess: Option<PostprocessMode>,
    pub overwrite: Option<bool>,
    pub exclude_metadata: Option<bool>,
}

impl RequestOverrides {
    pub open spec fn is_unset(self) -> bool {
        &&& self.fps is None
        &&& self.codec is None
        &&& self.frame_mode is None
        &&& self.container is None
        &&& self.fallback_cpu_encoding is None
        &&& self.audio_tracks is None
        &&& self.webcam is None
        &&& self.postprocess is None
        &&& self.overwrite is None
        &&& self.exclude_metadata is None
    }
}

impl Default for RequestOverrides {
    fn default() -> (r: Self)
        ensures
            r.is_unset(),
    {
        RequestOverrides {
            fps: None,
            codec: None,
            frame_mode: None,
            container: None,
            fallback_cpu_encoding: None,
            audio_tracks: None,
            webcam: None,
            postprocess: None,
            overwrite: None,
            exclude_metadata: None,
        }
    }
}

/// Protocol-facing start/plan payload. Selection is already resolved.
#[derive(Clone, Debug, PartialEq, Eq)]
pub struct RecordingRequest {
    pub target: CaptureTarget,
    pub profile: Option<String>,
    pub output: Option<String>,
    pub overrides: RequestOverrides,
}

impl RecordingRequest {
    pub fn monitor(name: &str) -> (r: Self)
        ensures
            r.target matches CaptureTarget::Monitor { name: n } && n@ == name@,
            r.profile is None,
            r.output is None,
            r.overrides.is_unset(),
    {
        RecordingRequest {
            target: CaptureTarget::Monitor { name: crate::text::owned(name) },
            profile: None,
            output: None,
            overrides: RequestOverrides::default(),
        }
    }
}

#[derive(Clone, Debug, PartialEq, Eq)]
pub enum SpecValidationError {
    InvalidFps(u16),
    MissingOutput,
    MissingOutputExtension,
    ContainerExtensionMismatch { container: Container, extension: String },
    InvalidMonitorName,
    EmptyRegion,
    EmptyAudioTrack,
    InvalidWebcamSize,
    HdrPortalUnsupported,
    OverwriteUnsupported,
}

/// Concrete specification after profile/default resolution and before capability policy.
#[derive(Clone, Debug, PartialEq, Eq)]
pub struct RecordingSpec {
    pub target: CaptureTarget,
    pub output: String,
    pub fps: u16,
    pub frame_mode: FrameMode,
    pub codec: Codec,
    pub container: Container,
    pub fallback_cpu_encoding: bool,
    pub audio_tracks: Vec<AudioTrack>,
    pub webcam: Option<WebcamConfig>,
    pub postprocess: PostprocessMode,
    pub overwrite: bool,
    pub exclude_metadata: bool,
}

/// The content of a recording specification, its audio tracks as source lists.
pub struct RecordingSpecView {
    pub target: CaptureTarget,
    pub output: Seq<char>,
    pub fps: u16,
    pub frame_mode: FrameMode,
    pub codec: Codec,
    pub container: Container,
    pub fallback_cpu_encoding: bool,
    pub audio_tracks: Seq<Seq<AudioSource>>,
    pub webcam: Option<WebcamConfig>,
    pub postprocess: PostprocessMode,
    pub overwrite: bool,
    pub exclude_metadata: bool,
}

impl View for RecordingSpec {
    type V = RecordingSpecView;

    open spec fn view(&self) -> RecordingSpecView {
        RecordingSpecView {
            target: self.target,
            output: self.output@,
            fps: self.fps,
            frame_mode: self.frame_mode,
            codec: self.codec,
            container: self.container,
            fallback_cpu_encoding: self.fallback_cpu_encoding,
            audio_tracks: self.audio_tracks.deep_view(),
            webcam: self.webcam,
            postprocess: self.postprocess,
            overwrite: self.overwrite,
            exclude_metadata: self.exclude_metadata,
        }
    }
}

/// The first rule a specification breaks, in the order `validate` checks them.
pub open spec fn validation_error(s: RecordingSpecView) -> Option<SpecValidationError> {
    if s.fps == 0 || s.fps > 1000 {
        Some(SpecValidationError::InvalidFps(s.fps))
    } else if s.output.len() == 0 {
        Some(SpecValidationError::MissingOutput)
    } else if s.overwrite {
        Some(SpecValidationError::OverwriteUnsupported)
    } else if s.target matches CaptureTarget::Monitor { name } && (name@.len() == 0
        || crate::text::has_char(name@, '\0')) {
        Some(SpecValidationError::InvalidMonitorName)
    } else if s.target matches CaptureTarget::Region { geometry, .. }
        && geometry.spec_is_empty() {
        Some(SpecValidationError::EmptyRegion)
    } else if s.target is Portal && s.codec.spec_is_hdr() {
        Some(SpecValidationError::HdrPortalUnsupported)
    } else if crate::pathname::path_extension(s.output) is None {
        Some(SpecValidationError::MissingOutputExtension)
    } else if container_from_extension(crate::pathname::path_extension(s.output)->0) != Some(
        s.container,
    ) {
        Some(
            SpecValidationError::ContainerExtensionMismatch {
                container: s.container,
                extension: arbitrary(),
            },
        )
    } else if has_empty_track(s.audio_tracks) {
        Some(SpecValidationError::EmptyAudioTrack)
    } else if s.webcam matches Some(w) && (!(1 <= w.width_percent <= 100) || !(1
        <= w.height_percent <= 100)) {
        Some(SpecValidationError::InvalidWebcamSize)
    } else {
        None
    }
}

/// `validate` agrees with `validation_error`: the same variant, and for an
/// extension mismatch the extension found.
pub open spec fn validation_matches(s: RecordingSpecView, r: Result<(), SpecValidationError>) -> bool {
    match validation_error(s) {
        None => r is Ok,
        Some(SpecValidationError::ContainerExtensionMismatch { container, .. }) => r matches Err(
            SpecValidationError::ContainerExtensionMismatch { container: c, extension: e },
        ) && c == container && Some(e@) == crate::pathname::path_extension(s.output),
        Some(e) => r == Err::<(), SpecValidationError>(e),
    }
}

impl RecordingSpec {
    pub fn copy(&self) -> (r: Self)
        ensures
            r@ == self@,
    {
        RecordingSpec {
            target: self.target.copy(),
            output: self.output.clone(),
            fps: self.fps,
            frame_mode: self.frame_mode,
            codec: self.codec,
            container: self.container,
            fallback_cpu_encoding: self.fallback_cpu_encoding,
            audio_tracks: copy_tracks(&self.audio_tracks),
            webcam: copy_opt_webcam(&self.webcam),
            postprocess: self.postprocess,
            overwrite: self.overwrite,
            exclude_metadata: self.exclude_metadata,
        }
    }

    pub fn validate(&self) -> (r: Result<(), SpecValidationError>)
        ensures
            validation_matches(self@, r),
    {
        if self.fps == 0 || self.fps > 1000 {
            return Err(SpecValidationError::InvalidFps(self.fps));
        }
        if self.output.as_str().is_empty() {
            return Err(SpecValidationError::MissingOutput);
        }
        if self.overwrite {
            return Err(SpecValidationError::OverwriteUnsupported);
        }
        if let CaptureTarget::Monitor { name } = &self.target {
            let chars = crate::text::chars_of(name.as_str());
            if chars.len() == 0 || crate::text::chars_have(chars.as_slice(), '\0') {
                return Err(SpecValidationError::InvalidMonitorName);
            }
        }
        if let CaptureTarget::Region { geometry, .. } = &self.target {
            if geometry.is_empty() {
                return Err(SpecValidationError::EmptyRegion);
            }
        }
        if let CaptureTarget::Portal { .. } = &self.target {
            if self.codec.is_hdr() {
                return Err(SpecValidationError::HdrPortalUnsupported);
            }
        }
        match crate::pathname::extension(self.output.as_str()) {
            Some(extension) => {
                match Container::from_extension(extension.as_str()) {
                    Some(container) => {
                        if container != self.container {
                            return Err(
                                SpecValidationError::ContainerExtensionMismatch {
                                    container: self.container,
                                    extension,
                                },
                            );
                        }
                    },
                    None => {
                        return Err(
                            SpecValidationError::ContainerExtensionMismatch {
                                container: self.container,
                                extension,
                            },
                        );
                    },
                }
            },
            None => {
                return Err(SpecValidationError::MissingOutputExtension);
            },
        }
        if any_empty_track(&self.audio_tracks) {
            return Err(SpecValidationError::EmptyAudioTrack);
        }
        if let Some(webcam) = &self.webcam {
            if !(1 <= webcam.width_percent && webcam.width_percent <= 100) || !(1
                <= webcam.height_percent && webcam.height_percent <= 100) {
                return Err(SpecValidationError::InvalidWebcamSize);
            }
        }
        Ok(())
    }
}

/// Immutable result of capability policy. Process planners consume only this type.
#[derive(Clone, Debug, PartialEq, Eq)]
pub struct EvaluatedSpec {
    pub spec: RecordingSpec,
    pub backend: CaptureBackend,
    pub codec: Codec,
    pub capture_device: Option<String>,
    pub encoding_device: Option<String>,
    pub capability_generation: u64,
    pub topology_generation: u64,
    pub warnings: Vec<String>,
    pub rationale: Vec<String>,
}

/// The content of an evaluated specification.
pub struct EvaluatedSpecView {
    pub spec: RecordingSpecView,
    pub backend: CaptureBackend,
    pub codec: Codec,
    pub capture_device: Option<String>,
    pub encoding_device: Option<String>,
    pub capability_generation: u64,
    pub topology_generation: u64,
    pub warnings: Seq<Seq<char>>,
    pub rationale: Seq<Seq<char>>,
}

impl View for EvaluatedSpec {
    type V = EvaluatedSpecView;

    open spec fn view(&self) -> EvaluatedSpecView {
        EvaluatedSpecView {
            spec: self.spec@,
            backend: self.backend,
            codec: self.codec,
            capture_device: self.capture_device,
            encoding_device: self.encoding_device,
            capability_generation: self.capability_generation,
            topology_generation: self.topology_generation,
            warnings: texts(self.warnings@),
            rationale: texts(self.rationale@),
        }
    }
}

impl EvaluatedSpec {
    pub fn copy(&self) -> (r: Self)
        ensures
            r@ == self@,
    {
        EvaluatedSpec {
            spec: self.spec.copy(),
            backend: self.backend,
            codec: self.codec,
            capture_device: crate::text::copy_opt_string(&self.capture_device),
            encoding_device: crate::text::copy_opt_string(&self.encoding_device),
            capability_generation: self.capability_generation,
            topology_generation: self.topology_generation,
            warnings: crate::text::copy_strings(&self.warnings),
            rationale: crate::text::copy_strings(&self.rationale),
        }
    }
}

#[derive(Clone, Debug, PartialEq, Eq)]
pub struct PlannedCommand {
    pub program: String,
    pub arguments: Vec<String>,
    pub environment: Vec<(String, String)>,
}

#[derive(Clone, Debug, PartialEq, Eq)]
pub struct LaunchPlan {
    pub preview_id: crate::ids::PreviewId,
    pub advisory: bool,
    pub session_id: Option<crate::ids::SessionId>,
    pub runtime_directory: String,
    pub gsr_ipc_socket: String,
    pub first_frame_timestamp: String,
    pub staging_output: String,
    pub final_output: String,
    pub recorder: PlannedCommand,
    pub supervisor: PlannedCommand,
    pub warnings: Vec<String>,
    pub rationale: Vec<String>,
}

} // verus!
