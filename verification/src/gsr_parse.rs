//! Parsers for the recorder's probe documents. They read text only; a failed
//! required probe is an error, never an empty capability list.

use vstd::prelude::*;
use crate::pathname::opt_text;
use crate::textmap::TextMap;
use crate::text::{
    contains, lines, lower, split_once, texts, trim, trim_str, owned, push_str, str_eq,
};

verus! {

/// Largest probe document read, in bytes.
pub const MAX_PROBE_BYTES: usize = 1048576;

/// `None` for an empty text.
pub open spec fn nonempty_text(s: Option<Seq<char>>) -> Option<Seq<char>> {
    match s {
        Some(t) => if t.len() == 0 {
            None
        } else {
            Some(t)
        },
        None => None,
    }
}

/// A `KEY|VALUE` line: the key trimmed, and the value trimmed when there is a
/// non-empty one.
pub open spec fn pipe_split(line: Seq<char>) -> (Seq<char>, Option<Seq<char>>) {
    match split_once(line, '|') {
        Some((left, right)) => (trim(left), nonempty_text(Some(trim(right)))),
        None => (trim(line), None),
    }
}

/// The trimmed lines that are not blank, in order.
pub open spec fn trimmed_nonempty(ls: Seq<Seq<char>>) -> Seq<Seq<char>>
    decreases ls.len(),
{
    if ls.len() == 0 {
        Seq::empty()
    } else if trim(ls.last()).len() == 0 {
        trimmed_nonempty(ls.drop_last())
    } else {
        trimmed_nonempty(ls.drop_last()).push(trim(ls.last()))
    }
}

/// The entries of a `NAME|DETAIL` list document.
pub open spec fn named_list(document: Seq<char>) -> Seq<(Seq<char>, Option<Seq<char>>)> {
    trimmed_nonempty(lines(document)).map_values(|l: Seq<char>| pipe_split(l))
}

pub fn empty_to_none(value: Option<String>) -> (r: Option<String>)
    ensures
        opt_text(r) == nonempty_text(opt_text(value)),
{
    match value {
        Some(item) => if item.as_str().is_empty() {
            None
        } else {
            Some(item)
        },
        None => None,
    }
}

pub fn split_pipe(line: &str) -> (r: (String, Option<String>))
    ensures
        (r.0@, opt_text(r.1)) == pipe_split(line@),
{
    let v = crate::text::chars_of(line);
    match crate::text::split_once_chars(v.as_slice(), '|') {
        Some((left, right)) => {
            let l = crate::text::trim_chars(left.as_slice());
            let r = crate::text::trim_chars(right.as_slice());
            (
                crate::text::string_from(l.as_slice()),
                empty_to_none(Some(crate::text::string_from(r.as_slice()))),
            )
        },
        None => (trim_str(line), None),
    }
}

/// The trimmed, non-blank lines of a document.
pub fn nonblank_lines(document: &str) -> (r: Vec<String>)
    ensures
        texts(r@) == trimmed_nonempty(lines(document@)),
{
    let v = crate::text::chars_of(document);
    let all = crate::text::split_lines(v.as_slice());
    let ghost ls = texts(all@);
    let mut r: Vec<String> = Vec::new();
    let mut i: usize = 0;
    assert(ls.take(0) =~= Seq::<Seq<char>>::empty());
    while i < all.len()
        invariant
            i <= all@.len(),
            ls == texts(all@),
            texts(r@) == trimmed_nonempty(ls.take(i as int)),
        decreases all@.len() - i,
    {
        assert(ls.take(i as int + 1).drop_last() =~= ls.take(i as int));
        let t = trim_str(all[i].as_str());
        if !t.as_str().is_empty() {
            let ghost before = texts(r@);
            r.push(t);
            assert(texts(r@) =~= before.push(trim(ls[i as int])));
        }
        i = i + 1;
    }
    assert(ls.take(all@.len() as int) =~= ls);
    r
}

/// The `(name, detail)` entries of a `NAME|DETAIL` list document.
pub fn parse_named_list(document: &str) -> (r: Vec<(String, Option<String>)>)
    ensures
        r@.map_values(|p: (String, Option<String>)| (p.0@, opt_text(p.1))) == named_list(document@),
{
    let ls = nonblank_lines(document);
    let ghost lv = texts(ls@);
    let mut r: Vec<(String, Option<String>)> = Vec::new();
    let mut i: usize = 0;
    while i < ls.len()
        invariant
            i <= ls@.len(),
            lv == texts(ls@),
            r@.map_values(|p: (String, Option<String>)| (p.0@, opt_text(p.1))) == lv.take(
                i as int,
            ).map_values(|l: Seq<char>| pipe_split(l)),
        decreases ls@.len() - i,
    {
        let ghost before = r@.map_values(|p: (String, Option<String>)| (p.0@, opt_text(p.1)));
        let ghost li = lv[i as int];
        assert(ls@[i as int]@ == li);
        let entry = split_pipe(ls[i].as_str());
        r.push(entry);
        assert(r@.map_values(|p: (String, Option<String>)| (p.0@, opt_text(p.1))) =~= before.push(
            pipe_split(li),
        ));
        assert(lv.take(i as int + 1).map_values(|l: Seq<char>| pipe_split(l)) =~= lv.take(
            i as int,
        ).map_values(|l: Seq<char>| pipe_split(l)).push(pipe_split(li)));
        i = i + 1;
    }
    assert(lv.take(ls@.len() as int) =~= lv);
    r
}

/// One line of `--list-capture-options`.
#[derive(Clone, Debug, PartialEq, Eq)]
pub struct CaptureOption {
    pub name: String,
    pub detail: Option<String>,
}

impl View for CaptureOption {
    type V = (Seq<char>, Option<Seq<char>>);

    open spec fn view(&self) -> (Seq<char>, Option<Seq<char>>) {
        (self.name@, opt_text(self.detail))
    }
}

pub open spec fn entry_is_portal(e: (Seq<char>, Option<Seq<char>>)) -> bool {
    e.0 == "portal"@
}

pub open spec fn entry_is_region(e: (Seq<char>, Option<Seq<char>>)) -> bool {
    e.0 == "region"@
}

/// A monitor entry carries a `WxH` detail and is neither `portal` nor `region`.
pub open spec fn entry_is_monitor(e: (Seq<char>, Option<Seq<char>>)) -> bool {
    &&& e.1 matches Some(d) && crate::text::has_char(d, 'x')
    &&& !entry_is_portal(e)
    &&& !entry_is_region(e)
}

/// The monitor entries, in order.
pub open spec fn monitor_entries(es: Seq<(Seq<char>, Option<Seq<char>>)>) -> Seq<
    (Seq<char>, Option<Seq<char>>),
>
    decreases es.len(),
{
    if es.len() == 0 {
        Seq::empty()
    } else if entry_is_monitor(es.last()) {
        monitor_entries(es.drop_last()).push(es.last())
    } else {
        monitor_entries(es.drop_last())
    }
}

pub open spec fn option_views(v: Seq<CaptureOption>) -> Seq<(Seq<char>, Option<Seq<char>>)> {
    v.map_values(|o: CaptureOption| o@)
}

impl CaptureOption {
    pub fn is_portal(&self) -> (b: bool)
        ensures
            b == entry_is_portal(self@),
    {
        str_eq(self.name.as_str(), "portal")
    }

    pub fn is_region(&self) -> (b: bool)
        ensures
            b == entry_is_region(self@),
    {
        str_eq(self.name.as_str(), "region")
    }

    pub fn is_monitor(&self) -> (b: bool)
        ensures
            b == entry_is_monitor(self@),
    {
        let has_size = match &self.detail {
            Some(detail) => {
                let v = crate::text::chars_of(detail.as_str());
                crate::text::chars_have(v.as_slice(), 'x')
            },
            None => false,
        };
        has_size && !self.is_portal() && !self.is_region()
    }
}

#[derive(Clone, Debug, PartialEq, Eq)]
pub struct MonitorOption {
    pub name: String,
    pub resolution: Option<String>,
}

impl View for MonitorOption {
    type V = (Seq<char>, Option<Seq<char>>);

    open spec fn view(&self) -> (Seq<char>, Option<Seq<char>>) {
        (self.name@, opt_text(self.resolution))
    }
}

#[derive(Clone, Debug, PartialEq, Eq)]
pub struct AudioDevice {
    pub id: String,
    pub description: Option<String>,
}

impl View for AudioDevice {
    type V = (Seq<char>, Option<Seq<char>>);

    open spec fn view(&self) -> (Seq<char>, Option<Seq<char>>) {
        (self.id@, opt_text(self.description))
    }
}

#[derive(Clone, Debug, PartialEq, Eq)]
pub struct ApplicationAudio {
    pub name: String,
}

/// `--list-capture-options`: one entry per non-blank line.
pub fn parse_capture_options(document: &str) -> (r: Vec<CaptureOption>)
    ensures
        option_views(r@) == named_list(document@),
{
    let ls = nonblank_lines(document);
    let ghost lv = texts(ls@);
    let mut r: Vec<CaptureOption> = Vec::new();
    let mut i: usize = 0;
    while i < ls.len()
        invariant
            i <= ls@.len(),
            lv == texts(ls@),
            option_views(r@) == lv.take(i as int).map_values(|l: Seq<char>| pipe_split(l)),
        decreases ls@.len() - i,
    {
        let ghost before = option_views(r@);
        let ghost li = lv[i as int];
        assert(ls@[i as int]@ == li);
        let (name, detail) = split_pipe(ls[i].as_str());
        r.push(CaptureOption { name, detail });
        assert(option_views(r@) =~= before.push(pipe_split(li)));
        assert(lv.take(i as int + 1).map_values(|l: Seq<char>| pipe_split(l)) =~= lv.take(
            i as int,
        ).map_values(|l: Seq<char>| pipe_split(l)).push(pipe_split(li)));
        i = i + 1;
    }
    assert(lv.take(ls@.len() as int) =~= lv);
    r
}

/// The monitors of `--list-monitors` (or of a capture-option list): the
/// entries with a `WxH` detail, never relabelled.
pub fn parse_monitors(document: &str) -> (r: Vec<MonitorOption>)
    ensures
        r@.map_values(|m: MonitorOption| m@) == monitor_entries(named_list(document@)),
{
    let options = parse_capture_options(document);
    let ghost ov = option_views(options@);
    let mut r: Vec<MonitorOption> = Vec::new();
    let mut i: usize = 0;
    assert(ov.take(0) =~= Seq::<(Seq<char>, Option<Seq<char>>)>::empty());
    while i < options.len()
        invariant
            i <= options@.len(),
            ov == option_views(options@),
            r@.map_values(|m: MonitorOption| m@) == monitor_entries(ov.take(i as int)),
        decreases options@.len() - i,
    {
        assert(ov.take(i as int + 1).drop_last() =~= ov.take(i as int));
        assert(ov.take(i as int + 1).last() == options@[i as int]@);
        if options[i].is_monitor() {
            let ghost before = r@.map_values(|m: MonitorOption| m@);
            let m = MonitorOption {
                name: options[i].name.clone(),
                resolution: crate::text::copy_opt_string(&options[i].detail),
            };
            r.push(m);
            assert(r@.map_values(|m: MonitorOption| m@) =~= before.push(options@[i as int]@));
        }
        i = i + 1;
    }
    assert(ov.take(options@.len() as int) =~= ov);
    r
}

/// `--list-audio-devices`: `ID|DESCRIPTION` per non-blank line.
pub fn parse_audio_devices(document: &str) -> (r: Vec<AudioDevice>)
    ensures
        r@.map_values(|d: AudioDevice| d@) == named_list(document@),
{
    let ls = nonblank_lines(document);
    let ghost lv = texts(ls@);
    let mut r: Vec<AudioDevice> = Vec::new();
    let mut i: usize = 0;
    while i < ls.len()
        invariant
            i <= ls@.len(),
            lv == texts(ls@),
            r@.map_values(|d: AudioDevice| d@) == lv.take(i as int).map_values(
                |l: Seq<char>| pipe_split(l),
            ),
        decreases ls@.len() - i,
    {
        let ghost before = r@.map_values(|d: AudioDevice| d@);
        let ghost li = lv[i as int];
        assert(ls@[i as int]@ == li);
        let (id, description) = split_pipe(ls[i].as_str());
        r.push(AudioDevice { id, description });
        assert(r@.map_values(|d: AudioDevice| d@) =~= before.push(pipe_split(li)));
        assert(lv.take(i as int + 1).map_values(|l: Seq<char>| pipe_split(l)) =~= lv.take(
            i as int,
        ).map_values(|l: Seq<char>| pipe_split(l)).push(pipe_split(li)));
        i = i + 1;
    }
    assert(lv.take(ls@.len() as int) =~= lv);
    r
}

/// `--list-application-audio`: one application per non-blank line.
pub fn parse_application_audio(document: &str) -> (r: Vec<ApplicationAudio>)
    ensures
        r@.map_values(|a: ApplicationAudio| a.name@) == trimmed_nonempty(lines(document@)),
{
    let ls = nonblank_lines(document);
    let ghost lv = texts(ls@);
    let mut r: Vec<ApplicationAudio> = Vec::new();
    let mut i: usize = 0;
    while i < ls.len()
        invariant
            i <= ls@.len(),
            lv == texts(ls@),
            r@.map_values(|a: ApplicationAudio| a.name@) == lv.take(i as int),
        decreases ls@.len() - i,
    {
        let ghost before = r@.map_values(|a: ApplicationAudio| a.name@);
        r.push(ApplicationAudio { name: ls[i].clone() });
        assert(r@.map_values(|a: ApplicationAudio| a.name@) =~= before.push(lv[i as int]));
        i = i + 1;
        assert(lv.take(i as int) =~= lv.take(i - 1).push(lv[i - 1]));
    }
    assert(lv.take(ls@.len() as int) =~= lv);
    r
}

#[derive(Clone, Debug, PartialEq, Eq)]
pub struct HelpFeatures {
    pub ipc: bool,
    pub first_frame_timestamp: bool,
    pub native_multi_source: bool,
}

impl Default for HelpFeatures {
    fn default() -> (h: Self)
        ensures
            !h.ipc && !h.first_frame_timestamp && !h.native_multi_source,
    {
        HelpFeatures { ipc: false, first_frame_timestamp: false, native_multi_source: false }
    }
}

/// What the help text advertises, matched without regard to ASCII case.
pub open spec fn help_features(document: Seq<char>) -> (bool, bool, bool) {
    let l = lower(document);
    (
        contains(l, "-ipc"@),
        contains(l, "-write-first-frame-ts"@),
        contains(l, "combine sources with |"@) || contains(
            l,
            "additional options can be passed to each capture source"@,
        ) || contains(l, "v4l2_device_path"@),
    )
}

fn text_contains(v: &[char], p: &str) -> (b: bool)
    ensures
        b == contains(v@, p@),
{
    let pv = crate::text::chars_of(p);
    crate::text::chars_contain(v, pv.as_slice())
}

/// `--help`: the features the recorder documents.
pub fn parse_help(document: &str) -> (h: HelpFeatures)
    ensures
        (h.ipc, h.first_frame_timestamp, h.native_multi_source) == help_features(document@),
{
    let v = crate::text::chars_of(document);
    let l = crate::text::lower_chars(v.as_slice());
    let ls = l.as_slice();
    HelpFeatures {
        ipc: text_contains(ls, "-ipc"),
        first_frame_timestamp: text_contains(ls, "-write-first-frame-ts"),
        native_multi_source: text_contains(ls, "combine sources with |") || text_contains(
            ls,
            "additional options can be passed to each capture source",
        ) || text_contains(ls, "v4l2_device_path"),
    }
}

#[derive(Clone, Debug, PartialEq, Eq)]
pub enum ParseError {
    /// A required probe document is blank.
    Empty,
    /// A probe document is larger than the limit.
    Oversized { limit: usize },
    InvalidUtf8,
    /// The version output, trimmed, names no version number.
    MissingVersion(String),
}

#[derive(Clone, Debug, PartialEq, Eq)]
pub struct GsrVersion {
    pub raw: String,
    pub version: String,
}

/// `bytes` as text, if they are valid UTF-8 (`std::str::from_utf8`).
#[verifier::external_body]
fn utf8_text(bytes: &[u8]) -> (r: Option<String>)
    ensures
        r is Some <==> vstd::utf8::valid_utf8(bytes@),
        r matches Some(s) ==> s@ == vstd::utf8::decode_utf8(bytes@),
{
    match std::str::from_utf8(bytes) {
        Ok(s) => Some(s.to_owned()),
        Err(_) => None,
    }
}

/// A probe's output as text: refused when longer than `limit` bytes or not UTF-8.
pub fn decode_bounded(bytes: &[u8], limit: usize) -> (r: Result<String, ParseError>)
    ensures
        bytes@.len() > limit ==> r == Err::<String, ParseError>(ParseError::Oversized { limit }),
        bytes@.len() <= limit && !vstd::utf8::valid_utf8(bytes@) ==> r == Err::<String, ParseError>(
            ParseError::InvalidUtf8,
        ),
        bytes@.len() <= limit && vstd::utf8::valid_utf8(bytes@) ==> (r matches Ok(s) && s@
            == vstd::utf8::decode_utf8(bytes@)),
{
    if bytes.len() > limit {
        return Err(ParseError::Oversized { limit });
    }
    match utf8_text(bytes) {
        Some(s) => Ok(s),
        None => Err(ParseError::InvalidUtf8),
    }
}

/// A field that reads `[v...]MAJOR.MINOR[...]` with decimal (possibly empty)
/// major and minor parts: the field without its leading `v`s.
pub open spec fn version_field(field: Seq<char>) -> Option<Seq<char>> {
    let f = field.skip(crate::text::skip_char(field, 'v', 0));
    match split_once(f, '.') {
        Some((major, rest)) => {
            let minor = match split_once(rest, '.') {
                Some((m, _)) => m,
                None => rest,
            };
            if crate::decimal::all_digits(major) && crate::decimal::all_digits(minor) {
                Some(f)
            } else {
                None
            }
        },
        None => None,
    }
}

/// The first field from index `i` on that reads as a version.
pub open spec fn first_version(fields: Seq<Seq<char>>, i: int) -> Option<Seq<char>>
    decreases fields.len() - i,
{
    if 0 <= i < fields.len() {
        match version_field(fields[i]) {
            Some(v) => Some(v),
            None => first_version(fields, i + 1),
        }
    } else {
        None
    }
}

fn ascii_digits(v: &[char]) -> (b: bool)
    ensures
        b == crate::decimal::all_digits(v@),
{
    let mut i: usize = 0;
    while i < v.len()
        invariant
            i <= v@.len(),
            forall|k: int| 0 <= k < i ==> crate::decimal::is_digit(#[trigger] v@[k]),
        decreases v@.len() - i,
    {
        if !('0' <= v[i] && v[i] <= '9') {
            return false;
        }
        i = i + 1;
    }
    true
}

pub fn extract_version(field: &str) -> (r: Option<String>)
    ensures
        opt_text(r) == version_field(field@),
{
    let v = crate::text::chars_of(field);
    let mut a: usize = 0;
    while a < v.len() && v[a] == 'v'
        invariant
            a <= v@.len(),
            crate::text::skip_char(v@, 'v', a as int) == crate::text::skip_char(v@, 'v', 0),
        decreases v@.len() - a,
    {
        a = a + 1;
    }
    let f = crate::text::slice_range(v.as_slice(), a, v.len());
    assert(f@ =~= field@.skip(crate::text::skip_char(field@, 'v', 0)));
    match crate::text::split_once_chars(f.as_slice(), '.') {
        Some((major, rest)) => {
            let minor = match crate::text::split_once_chars(rest.as_slice(), '.') {
                Some((m, _)) => m,
                None => rest,
            };
            if ascii_digits(major.as_slice()) && ascii_digits(minor.as_slice()) {
                Some(crate::text::string_from(f.as_slice()))
            } else {
                None
            }
        },
        None => None,
    }
}

/// `--version`: the whole trimmed output, and the first field that reads as
/// a version.
pub fn parse_version(document: &str) -> (r: Result<GsrVersion, ParseError>)
    ensures
        trim(document@).len() == 0 ==> r == Err::<GsrVersion, ParseError>(ParseError::Empty),
        trim(document@).len() > 0 ==> match first_version(crate::text::words(trim(document@)), 0) {
            Some(v) => r matches Ok(g) && g.raw@ == trim(document@) && g.version@ == v,
            None => r matches Err(ParseError::MissingVersion(raw)) && raw@ == trim(document@),
        },
{
    let raw = trim_str(document);
    if raw.as_str().is_empty() {
        return Err(ParseError::Empty);
    }
    let rv = crate::text::chars_of(raw.as_str());
    let fields = crate::text::split_words(rv.as_slice());
    let ghost fv = texts(fields@);
    let mut i: usize = 0;
    while i < fields.len()
        invariant
            i <= fields@.len(),
            fv == texts(fields@),
            fv == crate::text::words(raw@),
            raw@ == trim(document@),
            raw@.len() > 0,
            first_version(fv, 0) == first_version(fv, i as int),
        decreases fields@.len() - i,
    {
        assert(fields@[i as int]@ == fv[i as int]);
        match extract_version(fields[i].as_str()) {
            Some(version) => {
                return Ok(GsrVersion { raw, version });
            },
            None => {},
        }
        i = i + 1;
    }
    Err(ParseError::MissingVersion(raw))
}

/// `format!("{:?}", s)` of a `str`: the text in double quotes, the characters
/// that `str::escape_debug` escapes written as escapes.
pub uninterp spec fn debug_quoted(s: Seq<char>) -> Seq<char>;

/// `Debug` of a `str`. Which characters are escaped, and how, is the standard
/// library's; the result is named.
#[verifier::external_body]
fn quoted(s: &str) -> (r: String)
    ensures
        r@ == debug_quoted(s@),
{
    format!("{s:?}")
}

/// The contents of a text-keyed map of texts.
pub open spec fn text_map_view(m: TextMap<String>) -> Map<Seq<char>, Seq<char>> {
    Map::new(|k: Seq<char>| m.lookup(k) is Some, |k: Seq<char>| m.lookup(k)->0@)
}

proof fn lemma_text_map_insert(before: TextMap<String>, after: TextMap<String>, k: Seq<char>, v: String)
    requires
        after.lookup(k) == Some(v),
        forall|j: Seq<char>| j != k ==> after.lookup(j) == before.lookup(j),
    ensures
        text_map_view(after) == text_map_view(before).insert(k, v@),
{
    assert(text_map_view(after) =~= text_map_view(before).insert(k, v@));
}

/// `system_info` values: last one of each key wins; unknown keys with a value
/// are kept.
#[verifier::ext_equal]
pub struct SystemModel {
    pub display_server: Option<Seq<char>>,
    pub supports_app_audio: Option<bool>,
    pub is_steam_deck: Option<bool>,
    pub gsr_version: Option<Seq<char>>,
    pub unknown: Map<Seq<char>, Seq<char>>,
}

#[verifier::ext_equal]
pub struct GpuModel {
    pub vendor: Option<Seq<char>>,
    pub card_path: Option<Seq<char>>,
    pub unknown: Map<Seq<char>, Seq<char>>,
}

#[derive(Clone, Debug)]
pub struct SystemInfo {
    pub display_server: Option<String>,
    pub supports_app_audio: Option<bool>,
    pub is_steam_deck: Option<bool>,
    pub gsr_version: Option<String>,
    pub unknown: TextMap<String>,
}

#[derive(Clone, Debug)]
pub struct GpuInfo {
    pub vendor: Option<String>,
    pub card_path: Option<String>,
    pub unknown: TextMap<String>,
}

impl View for SystemInfo {
    type V = SystemModel;

    open spec fn view(&self) -> SystemModel {
        SystemModel {
            display_server: opt_text(self.display_server),
            supports_app_audio: self.supports_app_audio,
            is_steam_deck: self.is_steam_deck,
            gsr_version: opt_text(self.gsr_version),
            unknown: text_map_view(self.unknown),
        }
    }
}

impl View for GpuInfo {
    type V = GpuModel;

    open spec fn view(&self) -> GpuModel {
        GpuModel {
            vendor: opt_text(self.vendor),
            card_path: opt_text(self.card_path),
            unknown: text_map_view(self.unknown),
        }
    }
}

pub open spec fn empty_system() -> SystemModel {
    SystemModel {
        display_server: None,
        supports_app_audio: None,
        is_steam_deck: None,
        gsr_version: None,
        unknown: Map::empty(),
    }
}

pub open spec fn empty_gpu() -> GpuModel {
    GpuModel { vendor: None, card_path: None, unknown: Map::empty() }
}

impl Default for SystemInfo {
    fn default() -> (s: Self)
        ensures
            s@ == empty_system(),
    {
        let s = SystemInfo {
            display_server: None,
            supports_app_audio: None,
            is_steam_deck: None,
            gsr_version: None,
            unknown: TextMap::new(),
        };
        assert(s@ =~= empty_system());
        s
    }
}

impl Default for GpuInfo {
    fn default() -> (g: Self)
        ensures
            g@ == empty_gpu(),
    {
        let g = GpuInfo { vendor: None, card_path: None, unknown: TextMap::new() };
        assert(g@ =~= empty_gpu());
        g
    }
}

pub open spec fn is_yes(t: Seq<char>) -> bool {
    t == "yes"@ || t == "true"@ || t == "1"@
}

pub open spec fn is_no(t: Seq<char>) -> bool {
    t == "no"@ || t == "false"@ || t == "0"@
}

/// A probe boolean: `yes`/`true`/`1` or `no`/`false`/`0`, trimmed; anything
/// else is no answer.
pub open spec fn flag_value(v: Option<Seq<char>>) -> Option<bool> {
    match v {
        Some(s) => if is_yes(trim(s)) {
            Some(true)
        } else if is_no(trim(s)) {
            Some(false)
        } else {
            None
        },
        None => None,
    }
}

/// A probe boolean reads as `true` for a trimmed `yes`, `true` or `1`, as
/// `false` for a trimmed `no`, `false` or `0`, and as no answer otherwise.
pub proof fn lemma_probe_boolean_literals(s: Seq<char>)
    ensures
        trim(s) == "yes"@ ==> flag_value(Some(s)) == Some(true),
        trim(s) == "true"@ ==> flag_value(Some(s)) == Some(true),
        trim(s) == "1"@ ==> flag_value(Some(s)) == Some(true),
        trim(s) == "no"@ ==> flag_value(Some(s)) == Some(false),
        trim(s) == "false"@ ==> flag_value(Some(s)) == Some(false),
        trim(s) == "0"@ ==> flag_value(Some(s)) == Some(false),
        flag_value(Some(s)) is Some ==> trim(s) == "yes"@ || trim(s) == "true"@ || trim(s) == "1"@
            || trim(s) == "no"@ || trim(s) == "false"@ || trim(s) == "0"@,
        flag_value(None) is None,
{
    reveal_strlit("yes");
    reveal_strlit("true");
    reveal_strlit("1");
    reveal_strlit("no");
    reveal_strlit("false");
    reveal_strlit("0");
    let t = trim(s);
    if t == "no"@ || t == "false"@ {
        assert(t.len() == 2 || t.len() == 5);
        assert(t != "yes"@ && t != "true"@ && t != "1"@);
    }
    if t == "0"@ {
        assert(t[0] == '0');
        assert(t != "1"@);
    }
}

/// The warning a probe boolean gives: one for a non-blank value that is not
/// a boolean.
pub open spec fn flag_warnings(v: Option<Seq<char>>) -> Seq<Seq<char>> {
    match v {
        Some(s) => if is_yes(trim(s)) || is_no(trim(s)) || trim(s).len() == 0 {
            Seq::empty()
        } else {
            seq!["unrecognized boolean probe value "@ + debug_quoted(trim(s))]
        },
        None => Seq::empty(),
    }
}

pub open spec fn system_step(m: SystemModel, line: Seq<char>) -> SystemModel {
    let (key, value) = pipe_split(line);
    if key == "display_server"@ {
        SystemModel { display_server: nonempty_text(value), ..m }
    } else if key == "supports_app_audio"@ {
        SystemModel { supports_app_audio: flag_value(value), ..m }
    } else if key == "is_steam_deck"@ {
        SystemModel { is_steam_deck: flag_value(value), ..m }
    } else if key == "gsr_version"@ {
        SystemModel { gsr_version: nonempty_text(value), ..m }
    } else {
        match value {
            Some(v) => SystemModel { unknown: m.unknown.insert(key, v), ..m },
            None => m,
        }
    }
}

pub open spec fn system_line_warnings(line: Seq<char>) -> Seq<Seq<char>> {
    let (key, value) = pipe_split(line);
    if key == "display_server"@ {
        Seq::empty()
    } else if key == "supports_app_audio"@ || key == "is_steam_deck"@ {
        flag_warnings(value)
    } else {
        Seq::empty()
    }
}

/// The `system_info` section, read line by line.
pub open spec fn system_of(ls: Seq<Seq<char>>) -> SystemModel
    decreases ls.len(),
{
    if ls.len() == 0 {
        empty_system()
    } else {
        system_step(system_of(ls.drop_last()), ls.last())
    }
}

pub open spec fn system_warnings(ls: Seq<Seq<char>>) -> Seq<Seq<char>>
    decreases ls.len(),
{
    if ls.len() == 0 {
        Seq::empty()
    } else {
        system_warnings(ls.drop_last()) + system_line_warnings(ls.last())
    }
}

pub open spec fn gpu_step(m: GpuModel, line: Seq<char>) -> GpuModel {
    let (key, value) = pipe_split(line);
    if key == "vendor"@ {
        GpuModel { vendor: nonempty_text(value), ..m }
    } else if key == "card_path"@ {
        GpuModel { card_path: nonempty_text(value), ..m }
    } else {
        match value {
            Some(v) => GpuModel { unknown: m.unknown.insert(key, v), ..m },
            None => m,
        }
    }
}

/// The `gpu_info` section, read line by line.
pub open spec fn gpu_of(ls: Seq<Seq<char>>) -> GpuModel
    decreases ls.len(),
{
    if ls.len() == 0 {
        empty_gpu()
    } else {
        gpu_step(gpu_of(ls.drop_last()), ls.last())
    }
}

fn push_text(v: &mut Vec<String>, s: String)
    ensures
        texts(final(v)@) == texts(old(v)@).push(s@),
{
    let ghost sv = s@;
    v.push(s);
    assert(texts(v@) =~= texts(old(v)@).push(sv));
}

fn parse_flag(value: &Option<String>, warnings: &mut Vec<String>) -> (r: Option<bool>)
    ensures
        r == flag_value(opt_text(*value)),
        texts(final(warnings)@) == texts(old(warnings)@) + flag_warnings(opt_text(*value)),
{
    match value {
        Some(raw) => {
            let t = trim_str(raw.as_str());
            let ts = t.as_str();
            if str_eq(ts, "yes") || str_eq(ts, "true") || str_eq(ts, "1") {
                assert(texts(warnings@) =~= texts(old(warnings)@) + flag_warnings(opt_text(*value)));
                Some(true)
            } else if str_eq(ts, "no") || str_eq(ts, "false") || str_eq(ts, "0") {
                assert(texts(warnings@) =~= texts(old(warnings)@) + flag_warnings(opt_text(*value)));
                Some(false)
            } else if ts.is_empty() {
                assert(texts(warnings@) =~= texts(old(warnings)@) + flag_warnings(opt_text(*value)));
                None
            } else {
                let mut w: Vec<char> = Vec::new();
                push_str(&mut w, "unrecognized boolean probe value ");
                push_str(&mut w, quoted(ts).as_str());
                push_text(warnings, crate::text::string_from(w.as_slice()));
                assert(texts(warnings@) =~= texts(old(warnings)@) + flag_warnings(opt_text(*value)));
                None
            }
        },
        None => {
            assert(texts(warnings@) =~= texts(old(warnings)@) + flag_warnings(opt_text(*value)));
            None
        },
    }
}

fn system_line(info: &mut SystemInfo, line: &str, warnings: &mut Vec<String>)
    ensures
        final(info)@ == system_step(old(info)@, line@),
        texts(final(warnings)@) == texts(old(warnings)@) + system_line_warnings(line@),
{
    let (key, value) = split_pipe(line);
    let k = key.as_str();
    if str_eq(k, "display_server") {
        info.display_server = empty_to_none(value);
        assert(texts(warnings@) =~= texts(old(warnings)@) + system_line_warnings(line@));
    } else if str_eq(k, "supports_app_audio") {
        info.supports_app_audio = parse_flag(&value, warnings);
    } else if str_eq(k, "is_steam_deck") {
        info.is_steam_deck = parse_flag(&value, warnings);
    } else if str_eq(k, "gsr_version") {
        info.gsr_version = empty_to_none(value);
        assert(texts(warnings@) =~= texts(old(warnings)@) + system_line_warnings(line@));
    } else {
        match value {
            Some(v) => {
                let ghost before = info.unknown;
                let ghost vv = v;
                info.unknown.insert(key, v);
                proof {
                    lemma_text_map_insert(before, info.unknown, k@, vv);
                }
            },
            None => {},
        }
        assert(texts(warnings@) =~= texts(old(warnings)@) + system_line_warnings(line@));
    }
    assert(info@ =~= system_step(old(info)@, line@));
}

/// The `system_info` section: its values, and a warning for each boolean it
/// cannot read.
pub fn parse_system_info(lines: &Vec<String>, warnings: &mut Vec<String>) -> (r: SystemInfo)
    ensures
        r@ == system_of(texts(lines@)),
        texts(final(warnings)@) == texts(old(warnings)@) + system_warnings(texts(lines@)),
{
    let ghost lv = texts(lines@);
    let mut info = SystemInfo::default();
    let mut i: usize = 0;
    assert(lv.take(0) =~= Seq::<Seq<char>>::empty());
    assert(texts(warnings@) =~= texts(old(warnings)@) + system_warnings(lv.take(0)));
    while i < lines.len()
        invariant
            i <= lines@.len(),
            lv == texts(lines@),
            info@ == system_of(lv.take(i as int)),
            texts(warnings@) == texts(old(warnings)@) + system_warnings(lv.take(i as int)),
        decreases lines@.len() - i,
    {
        assert(lv.take(i as int + 1).drop_last() =~= lv.take(i as int));
        assert(lv.take(i as int + 1).last() == lines@[i as int]@);
        let ghost w0 = texts(warnings@);
        system_line(&mut info, lines[i].as_str(), warnings);
        assert(texts(warnings@) =~= texts(old(warnings)@) + system_warnings(lv.take(i as int + 1)));
        i = i + 1;
    }
    assert(lv.take(lines@.len() as int) =~= lv);
    info
}

fn gpu_line(info: &mut GpuInfo, line: &str)
    ensures
        final(info)@ == gpu_step(old(info)@, line@),
{
    let (key, value) = split_pipe(line);
    let k = key.as_str();
    if str_eq(k, "vendor") {
        info.vendor = empty_to_none(value);
    } else if str_eq(k, "card_path") {
        info.card_path = empty_to_none(value);
    } else {
        match value {
            Some(v) => {
                let ghost before = info.unknown;
                let ghost vv = v;
                info.unknown.insert(key, v);
                proof {
                    lemma_text_map_insert(before, info.unknown, k@, vv);
                }
            },
            None => {},
        }
    }
    assert(info@ =~= gpu_step(old(info)@, line@));
}

/// The `gpu_info` section.
pub fn parse_gpu_info(lines: &Vec<String>) -> (r: GpuInfo)
    ensures
        r@ == gpu_of(texts(lines@)),
{
    let ghost lv = texts(lines@);
    let mut info = GpuInfo::default();
    let mut i: usize = 0;
    assert(lv.take(0) =~= Seq::<Seq<char>>::empty());
    while i < lines.len()
        invariant
            i <= lines@.len(),
            lv == texts(lines@),
            info@ == gpu_of(lv.take(i as int)),
        decreases lines@.len() - i,
    {
        assert(lv.take(i as int + 1).drop_last() =~= lv.take(i as int));
        assert(lv.take(i as int + 1).last() == lines@[i as int]@);
        gpu_line(&mut info, lines[i].as_str());
        i = i + 1;
    }
    assert(lv.take(lines@.len() as int) =~= lv);
    info
}

/// `u32::from_str`.
pub open spec fn parsed_u32(s: Seq<char>) -> Option<u32> {
    match crate::decimal::parse_unsigned(s, u32::MAX as nat) {
        Some(v) => Some(v as u32),
        None => None,
    }
}

/// `str::trim_end_matches(p)` for a non-empty pattern: every trailing `p` removed.
pub open spec fn strip_suffixes(s: Seq<char>, p: Seq<char>) -> Seq<char>
    decreases s.len(),
{
    if p.len() > 0 && crate::text::ends_with(s, p) {
        strip_suffixes(s.take(s.len() - p.len()), p)
    } else {
        s
    }
}

pub struct ModeModel {
    pub raw: Seq<char>,
    pub width: Option<u32>,
    pub height: Option<u32>,
    pub fps: Option<u32>,
}

pub struct CameraModel {
    pub path: Seq<char>,
    pub name: Option<Seq<char>>,
    pub modes: Seq<ModeModel>,
    pub raw: Seq<char>,
}

#[derive(Clone, Debug, PartialEq, Eq)]
pub struct CameraMode {
    pub raw: String,
    pub width: Option<u32>,
    pub height: Option<u32>,
    pub fps: Option<u32>,
}

#[derive(Clone, Debug, PartialEq, Eq)]
pub struct CameraDevice {
    pub path: String,
    pub name: Option<String>,
    pub modes: Vec<CameraMode>,
    pub raw: String,
}

impl View for CameraMode {
    type V = ModeModel;

    open spec fn view(&self) -> ModeModel {
        ModeModel { raw: self.raw@, width: self.width, height: self.height, fps: self.fps }
    }
}

impl View for CameraDevice {
    type V = CameraModel;

    open spec fn view(&self) -> CameraModel {
        CameraModel {
            path: self.path@,
            name: opt_text(self.name),
            modes: self.modes@.map_values(|m: CameraMode| m@),
            raw: self.raw@,
        }
    }
}

/// `WxH@Nfps`: width and height when the size has an `x`, and the rate when
/// there is text after `@`, each read as a `u32` or left out.
pub open spec fn camera_mode_of(raw: Seq<char>) -> ModeModel {
    let (size, fps) = match split_once(raw, '@') {
        Some(p) => p,
        None => (raw, Seq::empty()),
    };
    let (width, height) = match split_once(size, 'x') {
        Some((w, h)) => (parsed_u32(w), parsed_u32(h)),
        None => (None, None),
    };
    ModeModel {
        raw,
        width,
        height,
        fps: if fps.len() == 0 {
            None
        } else {
            parsed_u32(trim(strip_suffixes(fps, "fps"@)))
        },
    }
}

/// One camera line: `PATH`, `PATH|WxH@Nfps` or `PATH|NAME`.
pub open spec fn camera_of(line: Seq<char>) -> CameraModel {
    let (path, rest) = pipe_split(line);
    match rest {
        Some(r) => if crate::text::has_char(r, 'x') && crate::text::has_char(r, '@') {
            CameraModel { path, name: None, modes: seq![camera_mode_of(r)], raw: line }
        } else {
            CameraModel { path, name: Some(r), modes: Seq::empty(), raw: line }
        },
        None => CameraModel { path, name: None, modes: Seq::empty(), raw: line },
    }
}

fn strip_fps(v: &[char]) -> (r: Vec<char>)
    ensures
        r@ == strip_suffixes(v@, "fps"@),
{
    let p = crate::text::chars_of("fps");
    proof {
        reveal_strlit("fps");
    }
    let mut end = v.len();
    assert(v@.take(end as int) =~= v@);
    loop
        invariant
            end <= v@.len(),
            p@ == "fps"@,
            p@.len() == 3,
            strip_suffixes(v@, "fps"@) == strip_suffixes(v@.take(end as int), "fps"@),
        decreases end,
    {
        let cur = crate::text::slice_range(v, 0, end);
        assert(cur@ =~= v@.take(end as int));
        if crate::text::chars_end_with(cur.as_slice(), p.as_slice()) {
            assert(v@.take(end as int).take(end - 3) =~= v@.take(end - 3));
            end = end - 3;
        } else {
            return cur;
        }
    }
}

fn parse_u32_text(v: &[char]) -> (r: Option<u32>)
    ensures
        r == parsed_u32(v@),
{
    crate::decimal::parse_u32(v)
}

pub fn parse_camera_mode(raw: &str) -> (m: CameraMode)
    ensures
        m@ == camera_mode_of(raw@),
{
    let v = crate::text::chars_of(raw);
    let (size, fps) = match crate::text::split_once_chars(v.as_slice(), '@') {
        Some(p) => p,
        None => (crate::text::slice_range(v.as_slice(), 0, v.len()), Vec::new()),
    };
    assert(v@.subrange(0, v@.len() as int) =~= v@);
    let (width, height) = match crate::text::split_once_chars(size.as_slice(), 'x') {
        Some((w, h)) => (parse_u32_text(w.as_slice()), parse_u32_text(h.as_slice())),
        None => (None, None),
    };
    let fps_value = if fps.len() == 0 {
        None
    } else {
        let stripped = strip_fps(fps.as_slice());
        let t = crate::text::trim_chars(stripped.as_slice());
        parse_u32_text(t.as_slice())
    };
    CameraMode { raw: owned(raw), width, height, fps: fps_value }
}

fn camera_line(line: &str) -> (c: CameraDevice)
    ensures
        c@ == camera_of(line@),
{
    let (path, rest) = split_pipe(line);
    match rest {
        Some(r) => {
            let rv = crate::text::chars_of(r.as_str());
            if crate::text::chars_have(rv.as_slice(), 'x') && crate::text::chars_have(rv.as_slice(), '@') {
                let mut modes: Vec<CameraMode> = Vec::new();
                modes.push(parse_camera_mode(r.as_str()));
                let c = CameraDevice { path, name: None, modes, raw: owned(line) };
                assert(c@.modes =~= seq![camera_mode_of(r@)]);
                c
            } else {
                let c = CameraDevice { path, name: Some(r), modes: Vec::new(), raw: owned(line) };
                assert(c@.modes =~= Seq::<ModeModel>::empty());
                c
            }
        },
        None => {
            let c = CameraDevice { path, name: None, modes: Vec::new(), raw: owned(line) };
            assert(c@.modes =~= Seq::<ModeModel>::empty());
            c
        },
    }
}

/// `--list-v4l2-devices`: one camera per non-blank line.
pub fn parse_cameras(document: &str) -> (r: Vec<CameraDevice>)
    ensures
        r@.map_values(|c: CameraDevice| c@) == trimmed_nonempty(lines(document@)).map_values(
            |l: Seq<char>| camera_of(l),
        ),
{
    let ls = nonblank_lines(document);
    let ghost lv = texts(ls@);
    let mut r: Vec<CameraDevice> = Vec::new();
    let mut i: usize = 0;
    while i < ls.len()
        invariant
            i <= ls@.len(),
            lv == texts(ls@),
            r@.map_values(|c: CameraDevice| c@) == lv.take(i as int).map_values(
                |l: Seq<char>| camera_of(l),
            ),
        decreases ls@.len() - i,
    {
        let ghost before = r@.map_values(|c: CameraDevice| c@);
        let ghost li = lv[i as int];
        assert(ls@[i as int]@ == li);
        r.push(camera_line(ls[i].as_str()));
        assert(r@.map_values(|c: CameraDevice| c@) =~= before.push(camera_of(li)));
        assert(lv.take(i as int + 1).map_values(|l: Seq<char>| camera_of(l)) =~= lv.take(
            i as int,
        ).map_values(|l: Seq<char>| camera_of(l)).push(camera_of(li)));
        i = i + 1;
    }
    assert(lv.take(ls@.len() as int) =~= lv);
    r
}

#[derive(Clone, Debug, PartialEq, Eq)]
pub struct CodecSet {
    pub names: Vec<String>,
}

/// What `--info` reports, section by section.
#[derive(Clone, Debug)]
pub struct InfoDocument {
    pub system: SystemInfo,
    pub gpu: GpuInfo,
    pub codecs: CodecSet,
    pub capture_options: Vec<CaptureOption>,
    pub unknown_sections: TextMap<Vec<String>>,
    pub warnings: Vec<String>,
    pub raw_lines: Vec<String>,
}

#[verifier::ext_equal]
pub struct InfoModel {
    pub system: SystemModel,
    pub gpu: GpuModel,
    pub codecs: Seq<Seq<char>>,
    pub capture_options: Seq<(Seq<char>, Option<Seq<char>>)>,
    pub unknown_sections: Map<Seq<char>, Seq<Seq<char>>>,
    pub warnings: Seq<Seq<char>>,
}

/// The contents of a text-keyed map of line lists.
pub open spec fn sections_view(m: TextMap<Vec<String>>) -> Map<Seq<char>, Seq<Seq<char>>> {
    Map::new(|k: Seq<char>| m.lookup(k) is Some, |k: Seq<char>| texts(m.lookup(k)->0@))
}

impl View for InfoDocument {
    type V = InfoModel;

    /// Everything but the raw lines.
    open spec fn view(&self) -> InfoModel {
        InfoModel {
            system: self.system@,
            gpu: self.gpu@,
            codecs: texts(self.codecs.names@),
            capture_options: option_views(self.capture_options@),
            unknown_sections: sections_view(self.unknown_sections),
            warnings: texts(self.warnings@),
        }
    }
}

pub open spec fn empty_info() -> InfoModel {
    InfoModel {
        system: empty_system(),
        gpu: empty_gpu(),
        codecs: Seq::empty(),
        capture_options: Seq::empty(),
        unknown_sections: Map::empty(),
        warnings: Seq::empty(),
    }
}

/// What the lines gathered under a section header contribute. Sections
/// without a name are dropped; unknown ones are kept whole.
pub open spec fn section_flush(section: Seq<char>, pending: Seq<Seq<char>>, m: InfoModel) -> InfoModel {
    if section.len() == 0 {
        m
    } else if section == "system_info"@ {
        InfoModel { system: system_of(pending), warnings: m.warnings + system_warnings(pending), ..m }
    } else if section == "gpu_info"@ {
        InfoModel { gpu: gpu_of(pending), ..m }
    } else if section == "video_codecs"@ {
        InfoModel { codecs: trimmed_nonempty(pending), ..m }
    } else if section == "capture_options"@ {
        InfoModel { capture_options: named_list(crate::text::join(pending, "\n"@)), ..m }
    } else {
        InfoModel { unknown_sections: m.unknown_sections.insert(section, pending), ..m }
    }
}

/// The section being read, its lines so far, and what earlier sections gave.
pub struct SectionState {
    pub current: Seq<char>,
    pub pending: Seq<Seq<char>>,
    pub info: InfoModel,
}

/// One line: a `section=NAME` header closes the open section; any other
/// non-blank line joins it, trimmed.
pub open spec fn section_step(st: SectionState, line: Seq<char>) -> SectionState {
    let t = trim(line);
    if crate::text::starts_with(t, "section="@) {
        SectionState {
            current: trim(t.skip("section="@.len() as int)),
            pending: Seq::empty(),
            info: section_flush(st.current, st.pending, st.info),
        }
    } else if t.len() > 0 {
        SectionState { pending: st.pending.push(t), ..st }
    } else {
        st
    }
}

pub open spec fn sections_of(ls: Seq<Seq<char>>) -> SectionState
    decreases ls.len(),
{
    if ls.len() == 0 {
        SectionState { current: Seq::empty(), pending: Seq::empty(), info: empty_info() }
    } else {
        section_step(sections_of(ls.drop_last()), ls.last())
    }
}

/// The whole `--info` document, with a warning when it names no recorder version.
pub open spec fn info_of(document: Seq<char>) -> InfoModel {
    let st = sections_of(lines(document));
    let m = section_flush(st.current, st.pending, st.info);
    if m.system.gsr_version is None {
        InfoModel { warnings: m.warnings.push("system_info did not include gsr_version"@), ..m }
    } else {
        m
    }
}

proof fn lemma_sections_insert(
    before: TextMap<Vec<String>>,
    after: TextMap<Vec<String>>,
    k: Seq<char>,
    v: Vec<String>,
)
    requires
        after.lookup(k) == Some(v),
        forall|j: Seq<char>| j != k ==> after.lookup(j) == before.lookup(j),
    ensures
        sections_view(after) == sections_view(before).insert(k, texts(v@)),
{
    assert(sections_view(after) =~= sections_view(before).insert(k, texts(v@)));
}

fn flush_section(section: &str, pending: &Vec<String>, info: &mut InfoDocument)
    ensures
        final(info)@ == section_flush(section@, texts(pending@), old(info)@),
        final(info).raw_lines@ == old(info).raw_lines@,
{
    let ghost pv = texts(pending@);
    if section.is_empty() {
    } else if str_eq(section, "system_info") {
        let ghost w0 = texts(info.warnings@);
        info.system = parse_system_info(pending, &mut info.warnings);
    } else if str_eq(section, "gpu_info") {
        info.gpu = parse_gpu_info(pending);
    } else if str_eq(section, "video_codecs") {
        let mut names: Vec<String> = Vec::new();
        let mut i: usize = 0;
        assert(pv.take(0) =~= Seq::<Seq<char>>::empty());
        while i < pending.len()
            invariant
                i <= pending@.len(),
                pv == texts(pending@),
                texts(names@) == trimmed_nonempty(pv.take(i as int)),
            decreases pending@.len() - i,
        {
            assert(pv.take(i as int + 1).drop_last() =~= pv.take(i as int));
            assert(pv.take(i as int + 1).last() == pending@[i as int]@);
            let t = trim_str(pending[i].as_str());
            if !t.as_str().is_empty() {
                push_text(&mut names, t);
            }
            i = i + 1;
        }
        assert(pv.take(pending@.len() as int) =~= pv);
        info.codecs.names = names;
    } else if str_eq(section, "capture_options") {
        let mut joined: Vec<char> = Vec::new();
        crate::text::push_joined(&mut joined, pending, "\n");
        let joined = crate::text::string_from(joined.as_slice());
        info.capture_options = parse_capture_options(joined.as_str());
    } else {
        let lines_copy = crate::text::copy_strings(pending);
        let ghost before = info.unknown_sections;
        let ghost lc = lines_copy;
        info.unknown_sections.insert(owned(section), lines_copy);
        proof {
            lemma_sections_insert(before, info.unknown_sections, section@, lc);
        }
    }
    assert(info@ =~= section_flush(section@, texts(pending@), old(info)@));
}

/// `--info`: the sections it knows read into typed values, unknown ones kept,
/// and a warning for each value it could not read. A blank document is an error.
pub fn parse_info(document: &str) -> (r: Result<InfoDocument, ParseError>)
    ensures
        trim(document@).len() == 0 ==> r == Err::<InfoDocument, ParseError>(ParseError::Empty),
        trim(document@).len() > 0 ==> (r matches Ok(info) && info@ == info_of(document@) && texts(
            info.raw_lines@,
        ) == lines(document@)),
{
    let trimmed = trim_str(document);
    if trimmed.as_str().is_empty() {
        return Err(ParseError::Empty);
    }
    let v = crate::text::chars_of(document);
    let all = crate::text::split_lines(v.as_slice());
    let ghost ls = texts(all@);
    let mut info = InfoDocument {
        system: SystemInfo::default(),
        gpu: GpuInfo::default(),
        codecs: CodecSet { names: Vec::new() },
        capture_options: Vec::new(),
        unknown_sections: TextMap::new(),
        warnings: Vec::new(),
        raw_lines: Vec::new(),
    };
    assert(info@ =~= empty_info());
    let mut current = String::new();
    let mut pending: Vec<String> = Vec::new();
    let header = crate::text::chars_of("section=");
    let mut i: usize = 0;
    assert(ls.take(0) =~= Seq::<Seq<char>>::empty());
    while i < all.len()
        invariant
            i <= all@.len(),
            ls == texts(all@),
            header@ == "section="@,
            current@ == sections_of(ls.take(i as int)).current,
            texts(pending@) == sections_of(ls.take(i as int)).pending,
            info@ == sections_of(ls.take(i as int)).info,
        decreases all@.len() - i,
    {
        assert(ls.take(i as int + 1).drop_last() =~= ls.take(i as int));
        assert(ls.take(i as int + 1).last() == all@[i as int]@);
        let t = crate::text::trim_chars(crate::text::chars_of(all[i].as_str()).as_slice());
        if crate::text::chars_start_with(t.as_slice(), header.as_slice()) {
            flush_section(current.as_str(), &pending, &mut info);
            let name = crate::text::slice_range(t.as_slice(), header.len(), t.len());
            assert(name@ =~= t@.skip("section="@.len() as int));
            let name = crate::text::trim_chars(name.as_slice());
            current = crate::text::string_from(name.as_slice());
            pending = Vec::new();
            assert(texts(pending@) =~= Seq::<Seq<char>>::empty());
        } else if t.len() > 0 {
            push_text(&mut pending, crate::text::string_from(t.as_slice()));
        }
        i = i + 1;
    }
    assert(ls.take(all@.len() as int) =~= ls);
    flush_section(current.as_str(), &pending, &mut info);
    if info.system.gsr_version.is_none() {
        push_text(&mut info.warnings, owned("system_info did not include gsr_version"));
    }
    info.raw_lines = all;
    Ok(info)
}

/// The probe outputs one capability snapshot is assembled from. `info` and
/// `capture_options` are required; the others may be missing.
#[derive(Clone, Debug)]
pub struct ProbeDocuments<'a> {
    pub version: Option<&'a str>,
    pub info: &'a str,
    pub capture_options: &'a str,
    pub monitors: Option<&'a str>,
    pub cameras: Option<&'a str>,
    pub audio: Option<&'a str>,
    pub applications: Option<&'a str>,
    pub help: Option<&'a str>,
}

#[derive(Clone, Debug)]
pub struct ProbeContext {
    pub gsr_cli_available: bool,
    pub generation: u64,
    pub probed_unix_ms: Option<u64>,
}

impl Default for ProbeContext {
    fn default() -> (c: Self)
        ensures
            !c.gsr_cli_available && c.generation == 0 && c.probed_unix_ms is None,
    {
        ProbeContext { gsr_cli_available: false, generation: 0, probed_unix_ms: None }
    }
}

pub struct DocumentsModel {
    pub version: Option<Seq<char>>,
    pub info: Seq<char>,
    pub capture_options: Seq<char>,
    pub monitors: Option<Seq<char>>,
    pub cameras: Option<Seq<char>>,
    pub audio: Option<Seq<char>>,
    pub applications: Option<Seq<char>>,
    pub help: Option<Seq<char>>,
}

pub open spec fn opt_str(o: Option<&str>) -> Option<Seq<char>> {
    match o {
        Some(s) => Some(s@),
        None => None,
    }
}

impl<'a> View for ProbeDocuments<'a> {
    type V = DocumentsModel;

    open spec fn view(&self) -> DocumentsModel {
        DocumentsModel {
            version: opt_str(self.version),
            info: self.info@,
            capture_options: self.capture_options@,
            monitors: opt_str(self.monitors),
            cameras: opt_str(self.cameras),
            audio: opt_str(self.audio),
            applications: opt_str(self.applications),
            help: opt_str(self.help),
        }
    }
}

pub open spec fn entry_names(es: Seq<(Seq<char>, Option<Seq<char>>)>) -> Seq<Seq<char>> {
    es.map_values(|e: (Seq<char>, Option<Seq<char>>)| e.0)
}

/// The capture options: the list document's, or the `--info` section's when
/// the list is empty.
pub open spec fn probed_options(d: DocumentsModel) -> Seq<(Seq<char>, Option<Seq<char>>)> {
    if named_list(d.capture_options).len() == 0 {
        info_of(d.info).capture_options
    } else {
        named_list(d.capture_options)
    }
}

/// Both required documents carry something: `--info` is not blank, and some
/// capture option is listed in either place.
pub open spec fn probes_present(d: DocumentsModel) -> bool {
    &&& trim(d.info).len() > 0
    &&& !(trim(d.capture_options).len() == 0 && info_of(d.info).capture_options.len() == 0)
}

/// The version named by `--version` when it names one, else the one `--info` reports.
pub open spec fn probed_version(d: DocumentsModel) -> Option<Seq<char>> {
    match d.version {
        Some(v) => if trim(v).len() > 0 && first_version(crate::text::words(trim(v)), 0) is Some {
            first_version(crate::text::words(trim(v)), 0)
        } else {
            info_of(d.info).system.gsr_version
        },
        None => info_of(d.info).system.gsr_version,
    }
}

pub open spec fn probed_help(d: DocumentsModel) -> (bool, bool, bool) {
    match d.help {
        Some(h) => help_features(h),
        None => (false, false, false),
    }
}

pub open spec fn probed_monitors(d: DocumentsModel) -> Seq<Seq<char>> {
    match d.monitors {
        Some(m) => entry_names(monitor_entries(named_list(m))),
        None => entry_names(monitor_entries(probed_options(d))),
    }
}

pub open spec fn probed_cameras(d: DocumentsModel) -> Seq<Seq<char>> {
    match d.cameras {
        Some(c) => trimmed_nonempty(lines(c)).map_values(|l: Seq<char>| camera_of(l).path),
        None => Seq::empty(),
    }
}

pub open spec fn probed_audio(d: DocumentsModel) -> Seq<Seq<char>> {
    match d.audio {
        Some(a) => entry_names(named_list(a)),
        None => Seq::empty(),
    }
}

pub open spec fn probed_applications(d: DocumentsModel) -> Seq<Seq<char>> {
    match d.applications {
        Some(a) => trimmed_nonempty(lines(a)),
        None => Seq::empty(),
    }
}

pub open spec fn probed_warnings(d: DocumentsModel) -> Seq<Seq<char>> {
    if d.help is None {
        info_of(d.info).warnings.push("recorder help probe was unavailable"@)
    } else {
        info_of(d.info).warnings
    }
}

/// The capability snapshot the documents and context describe.
pub open spec fn assembled(c: crate::capabilities::Capabilities, d: DocumentsModel, ctx: ProbeContext) -> bool {
    let info = info_of(d.info);
    &&& opt_text(c.recorder_version) == probed_version(d)
    &&& opt_text(c.capture_device) == info.gpu.vendor
    &&& opt_text(c.encoding_device) == info.gpu.vendor
    &&& c.portal_available == exists|i: int|
        0 <= i < probed_options(d).len() && entry_is_portal(#[trigger] probed_options(d)[i])
    &&& c.ipc_available == (ctx.gsr_cli_available && probed_help(d).0)
    &&& c.native_multi_source_available == probed_help(d).2
    &&& texts(c.capture_options@) == entry_names(probed_options(d))
    &&& texts(c.monitors@) == probed_monitors(d)
    &&& texts(c.cameras@) == probed_cameras(d)
    &&& texts(c.audio_devices@) == probed_audio(d)
    &&& texts(c.applications@) == probed_applications(d)
    &&& texts(c.codecs@) == info.codecs
    &&& c.generation == ctx.generation
    &&& c.probed_unix_ms == ctx.probed_unix_ms
    &&& texts(c.raw_probe@) == lines(d.info)
    &&& texts(c.warnings@) == probed_warnings(d)
}

fn copy_options(v: &Vec<CaptureOption>) -> (r: Vec<CaptureOption>)
    ensures
        option_views(r@) == option_views(v@),
{
    let mut r: Vec<CaptureOption> = Vec::new();
    let mut i: usize = 0;
    while i < v.len()
        invariant
            i <= v@.len(),
            option_views(r@) == option_views(v@).take(i as int),
        decreases v@.len() - i,
    {
        let ghost before = option_views(r@);
        r.push(
            CaptureOption {
                name: v[i].name.clone(),
                detail: crate::text::copy_opt_string(&v[i].detail),
            },
        );
        assert(option_views(r@) =~= before.push(v@[i as int]@));
        i = i + 1;
        assert(option_views(v@).take(i as int) =~= option_views(v@).take(i - 1).push(v@[i - 1]@));
    }
    assert(option_views(v@).take(v@.len() as int) =~= option_views(v@));
    r
}

fn option_names(v: &Vec<CaptureOption>) -> (r: Vec<String>)
    ensures
        texts(r@) == entry_names(option_views(v@)),
{
    let mut r: Vec<String> = Vec::new();
    let mut i: usize = 0;
    while i < v.len()
        invariant
            i <= v@.len(),
            texts(r@) == entry_names(option_views(v@).take(i as int)),
        decreases v@.len() - i,
    {
        push_text(&mut r, v[i].name.clone());
        i = i + 1;
        assert(texts(r@) =~= entry_names(option_views(v@).take(i as int)));
    }
    assert(option_views(v@).take(v@.len() as int) =~= option_views(v@));
    r
}

fn monitor_names(v: &Vec<CaptureOption>) -> (r: Vec<String>)
    ensures
        texts(r@) == entry_names(monitor_entries(option_views(v@))),
{
    let ghost ov = option_views(v@);
    let mut r: Vec<String> = Vec::new();
    let mut i: usize = 0;
    assert(ov.take(0) =~= Seq::<(Seq<char>, Option<Seq<char>>)>::empty());
    assert(texts(r@) =~= entry_names(monitor_entries(ov.take(0))));
    while i < v.len()
        invariant
            i <= v@.len(),
            ov == option_views(v@),
            texts(r@) == entry_names(monitor_entries(ov.take(i as int))),
        decreases v@.len() - i,
    {
        assert(ov.take(i as int + 1).drop_last() =~= ov.take(i as int));
        assert(ov.take(i as int + 1).last() == v@[i as int]@);
        if v[i].is_monitor() {
            push_text(&mut r, v[i].name.clone());
        }
        i = i + 1;
        assert(texts(r@) =~= entry_names(monitor_entries(ov.take(i as int))));
    }
    assert(ov.take(v@.len() as int) =~= ov);
    r
}

fn any_portal(v: &Vec<CaptureOption>) -> (b: bool)
    ensures
        b == exists|i: int| 0 <= i < v@.len() && entry_is_portal(#[trigger] option_views(v@)[i]),
{
    let mut i: usize = 0;
    while i < v.len()
        invariant
            i <= v@.len(),
            forall|k: int| 0 <= k < i ==> !entry_is_portal(#[trigger] option_views(v@)[k]),
        decreases v@.len() - i,
    {
        if v[i].is_portal() {
            assert(entry_is_portal(option_views(v@)[i as int]));
            return true;
        }
        i = i + 1;
    }
    false
}

/// Assembles one capability snapshot from the probe documents. A blank
/// `--info`, or no capture option anywhere, is an error rather than an empty list.
pub fn assemble_capabilities(documents: &ProbeDocuments, context: &ProbeContext) -> (r: Result<
    crate::capabilities::Capabilities,
    ParseError,
>)
    ensures
        !probes_present(documents@) ==> r == Err::<crate::capabilities::Capabilities, ParseError>(
            ParseError::Empty,
        ),
        probes_present(documents@) ==> (r matches Ok(c) && assembled(c, documents@, *context)),
{
    let ghost d = documents@;
    let info = match parse_info(documents.info) {
        Ok(i) => i,
        Err(e) => {
            return Err(e);
        },
    };
    let listed = parse_capture_options(documents.capture_options);
    let capture_options = if listed.len() == 0 {
        copy_options(&info.capture_options)
    } else {
        listed
    };
    assert(option_views(capture_options@) == probed_options(d));
    if trim_str(documents.capture_options).as_str().is_empty() && info.capture_options.len() == 0 {
        return Err(ParseError::Empty);
    }
    let monitors = match documents.monitors {
        Some(document) => {
            let listed_monitors = parse_monitors(document);
            let mut names: Vec<String> = Vec::new();
            let ghost mv = listed_monitors@.map_values(|m: MonitorOption| m@);
            let mut i: usize = 0;
            while i < listed_monitors.len()
                invariant
                    i <= listed_monitors@.len(),
                    mv == listed_monitors@.map_values(|m: MonitorOption| m@),
                    texts(names@) == entry_names(mv.take(i as int)),
                decreases listed_monitors@.len() - i,
            {
                push_text(&mut names, listed_monitors[i].name.clone());
                i = i + 1;
                assert(texts(names@) =~= entry_names(mv.take(i as int)));
            }
            assert(mv.take(listed_monitors@.len() as int) =~= mv);
            names
        },
        None => monitor_names(&capture_options),
    };
    let cameras = match documents.cameras {
        Some(document) => {
            let devices = parse_cameras(document);
            let ghost cv = devices@.map_values(|c: CameraDevice| c@);
            let mut paths: Vec<String> = Vec::new();
            let mut i: usize = 0;
            while i < devices.len()
                invariant
                    i <= devices@.len(),
                    cv == devices@.map_values(|c: CameraDevice| c@),
                    texts(paths@) == cv.take(i as int).map_values(|c: CameraModel| c.path),
                decreases devices@.len() - i,
            {
                push_text(&mut paths, devices[i].path.clone());
                i = i + 1;
                assert(texts(paths@) =~= cv.take(i as int).map_values(|c: CameraModel| c.path));
            }
            assert(cv.take(devices@.len() as int) =~= cv);
            assert(texts(paths@) =~= probed_cameras(d));
            paths
        },
        None => Vec::new(),
    };
    let audio_devices = match documents.audio {
        Some(document) => {
            let devices = parse_audio_devices(document);
            let ghost av = devices@.map_values(|a: AudioDevice| a@);
            let mut ids: Vec<String> = Vec::new();
            let mut i: usize = 0;
            while i < devices.len()
                invariant
                    i <= devices@.len(),
                    av == devices@.map_values(|a: AudioDevice| a@),
                    texts(ids@) == entry_names(av.take(i as int)),
                decreases devices@.len() - i,
            {
                push_text(&mut ids, devices[i].id.clone());
                i = i + 1;
                assert(texts(ids@) =~= entry_names(av.take(i as int)));
            }
            assert(av.take(devices@.len() as int) =~= av);
            ids
        },
        None => Vec::new(),
    };
    let applications = match documents.applications {
        Some(document) => {
            let apps = parse_application_audio(document);
            let ghost nv = apps@.map_values(|a: ApplicationAudio| a.name@);
            let mut names: Vec<String> = Vec::new();
            let mut i: usize = 0;
            while i < apps.len()
                invariant
                    i <= apps@.len(),
                    nv == apps@.map_values(|a: ApplicationAudio| a.name@),
                    texts(names@) == nv.take(i as int),
                decreases apps@.len() - i,
            {
                push_text(&mut names, apps[i].name.clone());
                i = i + 1;
                assert(texts(names@) =~= nv.take(i as int));
            }
            assert(nv.take(apps@.len() as int) =~= nv);
            names
        },
        None => Vec::new(),
    };
    let help = match documents.help {
        Some(document) => parse_help(document),
        None => HelpFeatures::default(),
    };
    let recorder_version = match documents.version {
        Some(document) => match parse_version(document) {
            Ok(v) => Some(v.version),
            Err(_) => crate::text::copy_opt_string(&info.system.gsr_version),
        },
        None => crate::text::copy_opt_string(&info.system.gsr_version),
    };
    let mut warnings = info.warnings;
    if documents.help.is_none() {
        push_text(&mut warnings, owned("recorder help probe was unavailable"));
    }
    let portal_available = any_portal(&capture_options);
    let capture_names = option_names(&capture_options);
    let c = crate::capabilities::Capabilities {
        recorder_version,
        capture_device: crate::text::copy_opt_string(&info.gpu.vendor),
        encoding_device: crate::text::copy_opt_string(&info.gpu.vendor),
        capture_options: capture_names,
        monitors,
        cameras,
        audio_devices,
        applications,
        codecs: info.codecs.names,
        portal_available,
        ipc_available: context.gsr_cli_available && help.ipc,
        native_multi_source_available: help.native_multi_source,
        generation: context.generation,
        probed_unix_ms: context.probed_unix_ms,
        raw_probe: info.raw_lines,
        warnings,
    };
    let ghost info_m = info_of(d.info);
    assert(opt_text(c.recorder_version) == probed_version(d));
    assert(opt_text(c.capture_device) == info_m.gpu.vendor);
    assert(c.portal_available == exists|i: int|
        0 <= i < probed_options(d).len() && entry_is_portal(#[trigger] probed_options(d)[i]));
    assert(texts(c.capture_options@) == entry_names(probed_options(d)));
    assert(texts(c.monitors@) == probed_monitors(d));
    assert(texts(c.cameras@) == probed_cameras(d));
    assert(texts(c.audio_devices@) == probed_audio(d));
    assert(texts(c.applications@) == probed_applications(d));
    assert(texts(c.codecs@) == info_m.codecs);
    assert(texts(c.raw_probe@) == lines(d.info));
    assert(texts(c.warnings@) == probed_warnings(d));
    Ok(c)
}

proof fn lemma_trimmed_nonempty_keeps(ls: Seq<Seq<char>>, j: int)
    requires
        0 <= j < ls.len(),
        trim(ls[j]).len() > 0,
    ensures
        trimmed_nonempty(ls).len() > 0,
    decreases ls.len(),
{
    if j < ls.len() - 1 {
        lemma_trimmed_nonempty_keeps(ls.drop_last(), j);
    }
}

/// A list document that is not blank names at least one entry.
proof fn lemma_nonblank_list_names_one(document: Seq<char>)
    requires
        trim(document).len() > 0,
    ensures
        named_list(document).len() > 0,
{
    crate::text::lemma_nonblank_text_has_nonblank_line(document);
    let j = choose|j: int| 0 <= j < lines(document).len() && trim(#[trigger] lines(document)[j]).len() > 0;
    lemma_trimmed_nonempty_keeps(lines(document), j);
}

/// Every successful capability snapshot lists a capture option: documents
/// that assemble into one name at least one, in the list or in `--info`.
pub proof fn lemma_assembled_capabilities_list_a_capture_option(
    c: crate::capabilities::Capabilities,
    d: DocumentsModel,
    ctx: ProbeContext,
)
    requires
        probes_present(d),
        assembled(c, d, ctx),
    ensures
        c.capture_options@.len() > 0,
{
    if named_list(d.capture_options).len() == 0 {
        if trim(d.capture_options).len() > 0 {
            lemma_nonblank_list_names_one(d.capture_options);
        }
    }
    assert(texts(c.capture_options@).len() == c.capture_options@.len());
}

/// What `--info` warns of starts with `u` (an unreadable flag) or `s` (a
/// missing version).
pub open spec fn info_warning_shape(w: Seq<char>) -> bool {
    w.len() > 0 && (w[0] == 'u' || w[0] == 's')
}

proof fn lemma_flag_warnings_shape(v: Option<Seq<char>>)
    ensures
        forall|i: int| 0 <= i < flag_warnings(v).len() ==> info_warning_shape(#[trigger] flag_warnings(v)[i]),
{
    reveal_strlit("unrecognized boolean probe value ");
    if let Some(t) = v {
        let w = "unrecognized boolean probe value "@ + debug_quoted(trim(t));
        assert(w[0] == 'u');
    }
}

proof fn lemma_system_warnings_shape(ls: Seq<Seq<char>>)
    ensures
        forall|i: int| 0 <= i < system_warnings(ls).len() ==> info_warning_shape(#[trigger] system_warnings(ls)[i]),
    decreases ls.len(),
{
    if ls.len() > 0 {
        lemma_system_warnings_shape(ls.drop_last());
        let (key, value) = pipe_split(ls.last());
        lemma_flag_warnings_shape(value);
        let a = system_warnings(ls.drop_last());
        let b = system_line_warnings(ls.last());
        assert forall|i: int| 0 <= i < system_warnings(ls).len() implies info_warning_shape(
            #[trigger] system_warnings(ls)[i],
        ) by {
            if i >= a.len() {
                assert(system_warnings(ls)[i] == b[i - a.len()]);
            } else {
                assert(system_warnings(ls)[i] == a[i]);
            }
        }
    }
}

proof fn lemma_flush_shape(section: Seq<char>, pending: Seq<Seq<char>>, m: InfoModel)
    requires
        forall|i: int| 0 <= i < m.warnings.len() ==> info_warning_shape(#[trigger] m.warnings[i]),
    ensures
        forall|i: int| 0 <= i < section_flush(section, pending, m).warnings.len() ==> info_warning_shape(
            #[trigger] section_flush(section, pending, m).warnings[i],
        ),
{
    lemma_system_warnings_shape(pending);
    let r = section_flush(section, pending, m);
    if section.len() > 0 && section == "system_info"@ {
        assert forall|i: int| 0 <= i < r.warnings.len() implies info_warning_shape(#[trigger] r.warnings[i]) by {
            if i >= m.warnings.len() {
                assert(r.warnings[i] == system_warnings(pending)[i - m.warnings.len()]);
            } else {
                assert(r.warnings[i] == m.warnings[i]);
            }
        }
    }
}

proof fn lemma_sections_shape(ls: Seq<Seq<char>>)
    ensures
        forall|i: int| 0 <= i < sections_of(ls).info.warnings.len() ==> info_warning_shape(
            #[trigger] sections_of(ls).info.warnings[i],
        ),
    decreases ls.len(),
{
    if ls.len() > 0 {
        lemma_sections_shape(ls.drop_last());
        let st = sections_of(ls.drop_last());
        lemma_flush_shape(st.current, st.pending, st.info);
    }
}

/// Every warning `--info` gives starts with `u` or `s`.
proof fn lemma_info_warnings_shape(document: Seq<char>)
    ensures
        forall|i: int| 0 <= i < info_of(document).warnings.len() ==> info_warning_shape(
            #[trigger] info_of(document).warnings[i],
        ),
{
    let st = sections_of(lines(document));
    lemma_sections_shape(lines(document));
    lemma_flush_shape(st.current, st.pending, st.info);
    let m = section_flush(st.current, st.pending, st.info);
    reveal_strlit("system_info did not include gsr_version");
    let w = "system_info did not include gsr_version"@;
    assert(w[0] == 's');
    if m.system.gsr_version is None {
        assert forall|i: int| 0 <= i < info_of(document).warnings.len() implies info_warning_shape(
            #[trigger] info_of(document).warnings[i],
        ) by {
            if i < m.warnings.len() {
                assert(info_of(document).warnings[i] == m.warnings[i]);
            } else {
                assert(info_of(document).warnings[i] == w);
            }
        }
    }
}

/// A capability snapshot warns that the recorder help probe was unavailable
/// exactly when no help document was given: no `--info` warning reads like it.
pub proof fn lemma_help_warning_iff_help_missing(
    c: crate::capabilities::Capabilities,
    d: DocumentsModel,
    ctx: ProbeContext,
)
    requires
        assembled(c, d, ctx),
    ensures
        texts(c.warnings@).contains("recorder help probe was unavailable"@) <==> d.help is None,
{
    let help = "recorder help probe was unavailable"@;
    reveal_strlit("recorder help probe was unavailable");
    assert(help[0] == 'r');
    let info = info_of(d.info);
    lemma_info_warnings_shape(d.info);
    let ws = texts(c.warnings@);
    if d.help is None {
        assert(ws[ws.len() - 1] == help);
    } else {
        assert forall|i: int| 0 <= i < ws.len() implies ws[i] != help by {
            assert(ws[i] == info.warnings[i]);
            assert(info_warning_shape(info.warnings[i]));
        }
    }
}

} // verus!
