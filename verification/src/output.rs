//! Promotion of a finished staging file to its destination: the checks made
//! on the names before any file is touched, the probe's arguments, and what
//! makes a probed file acceptable. The file operations are the caller's part.

use vstd::prelude::*;
use crate::pathname::{opt_text, path_eq, path_file_name, path_parent, same_path};
use crate::json::{json_document, json_get, json_text, read_json, Json};
use crate::text::{owned, str_eq, texts};

verus! {

#[derive(Clone, Copy, Debug, PartialEq, Eq, Structural)]
pub struct FileIdentity {
    pub device: u64,
    pub inode: u64,
}

#[derive(Clone, Debug, PartialEq, Eq)]
pub struct MediaInfo {
    pub has_video: bool,
    pub duration_seconds: Option<u64>,
    pub format_name: String,
}

#[derive(Clone, Debug, PartialEq, Eq)]
pub enum OutputError {
    Open { path: String, message: String },
    Stat(String),
    CreateStaging(String),
    /// The saved path is not the session's own staging file.
    ForgedSavedPath,
    /// The file changed between validation and promotion.
    IdentityMismatch,
    /// The destination exists; nothing is overwritten.
    AlreadyExists,
    Promote(String),
    Fsync(String),
    /// The probed file has no video stream or no format name.
    InvalidMedia,
    /// A name lies outside the destination directory.
    WrongDirectory,
    MissingFileName,
    /// A file name starts with `-` and could be read as an option.
    DashPrefixedName,
    InvalidProbe(String),
    ProbeTimeout,
    ProbeSpawn(String),
    ProbeFailed(Option<i32>),
}

/// The directory part of a path, `.` when there is none or it is empty.
pub open spec fn directory_of(p: Seq<char>) -> Seq<char> {
    match path_parent(p) {
        Some(q) => if q.len() > 0 {
            q
        } else {
            "."@
        },
        None => "."@,
    }
}

/// The file name starts with `-`.
pub open spec fn dash_named(p: Seq<char>) -> bool {
    path_file_name(p) matches Some(n) && n.len() > 0 && n[0] == '-'
}

/// The first check of a promotion that fails, in the order they are made:
/// dash-prefixed names, then missing file names, then names outside the
/// destination directory, then a saved path that is not the staging file.
pub open spec fn name_check(dest: Seq<char>, staging: Seq<char>, saved: Seq<char>, final_path: Seq<char>) -> Option<OutputError> {
    if dash_named(staging) || dash_named(final_path) {
        Some(OutputError::DashPrefixedName)
    } else if path_file_name(staging) is None || path_file_name(saved) is None || path_file_name(
        final_path,
    ) is None {
        Some(OutputError::MissingFileName)
    } else if !path_eq(directory_of(staging), dest) || !path_eq(directory_of(final_path), dest) {
        Some(OutputError::WrongDirectory)
    } else if !path_eq(directory_of(saved), dest) || path_file_name(saved) != path_file_name(staging) {
        Some(OutputError::ForgedSavedPath)
    } else {
        None
    }
}

pub fn parent_or_dot(path: &str) -> (r: String)
    ensures
        r@ == directory_of(path@),
{
    match crate::pathname::parent(path) {
        Some(q) => if q.as_str().is_empty() {
            owned(".")
        } else {
            q
        },
        None => owned("."),
    }
}

/// Whether the file name of `path` starts with `-`.
pub fn dash_prefixed(path: &str) -> (b: bool)
    ensures
        b == dash_named(path@),
{
    match crate::pathname::file_name(path) {
        Some(name) => {
            let v = crate::text::chars_of(name.as_str());
            v.len() > 0 && v[0] == '-'
        },
        None => false,
    }
}

/// The dash check, made before anything is opened.
pub fn check_dash_names(staging: &str, final_path: &str) -> (r: Result<(), OutputError>)
    ensures
        (dash_named(staging@) || dash_named(final_path@)) ==> r == Err::<(), OutputError>(
            OutputError::DashPrefixedName,
        ),
        !(dash_named(staging@) || dash_named(final_path@)) ==> r is Ok,
{
    if dash_prefixed(staging) || dash_prefixed(final_path) {
        Err(OutputError::DashPrefixedName)
    } else {
        Ok(())
    }
}

/// The checks a promotion makes on its four paths. On success, the file
/// names of the staging, saved and final paths, in that order.
pub fn check_promotion_names(dest_dir: &str, staging: &str, saved: &str, final_path: &str) -> (r:
    Result<(String, String, String), OutputError>)
    ensures
        match name_check(dest_dir@, staging@, saved@, final_path@) {
            Some(e) => r == Err::<(String, String, String), OutputError>(e),
            None => r matches Ok((a, b, c)) && Some(a@) == path_file_name(staging@) && Some(b@)
                == path_file_name(saved@) && Some(c@) == path_file_name(final_path@),
        },
{
    if let Err(e) = check_dash_names(staging, final_path) {
        return Err(e);
    }
    let staging_name = match crate::pathname::file_name(staging) {
        Some(n) => n,
        None => {
            return Err(OutputError::MissingFileName);
        },
    };
    let saved_name = match crate::pathname::file_name(saved) {
        Some(n) => n,
        None => {
            return Err(OutputError::MissingFileName);
        },
    };
    let final_name = match crate::pathname::file_name(final_path) {
        Some(n) => n,
        None => {
            return Err(OutputError::MissingFileName);
        },
    };
    if !same_path(parent_or_dot(staging).as_str(), dest_dir) || !same_path(
        parent_or_dot(final_path).as_str(),
        dest_dir,
    ) {
        return Err(OutputError::WrongDirectory);
    }
    if !same_path(parent_or_dot(saved).as_str(), dest_dir) || !crate::text::str_eq(
        saved_name.as_str(),
        staging_name.as_str(),
    ) {
        return Err(OutputError::ForgedSavedPath);
    }
    Ok((staging_name, saved_name, final_name))
}

/// The saved file and the staging file must be the same file, now as when
/// it was validated.
pub fn check_identity(expected: FileIdentity, current: FileIdentity) -> (r: Result<(), OutputError>)
    ensures
        expected == current ==> r is Ok,
        expected != current ==> r == Err::<(), OutputError>(OutputError::IdentityMismatch),
{
    if expected.device == current.device && expected.inode == current.inode {
        Ok(())
    } else {
        Err(OutputError::IdentityMismatch)
    }
}

/// The probe's report read as JSON; a text that is no JSON is an invalid probe.
pub fn probe_document(source: &str) -> (r: Result<Json, OutputError>)
    ensures
        match json_document(source@) {
            Some(j) => r == Ok::<Json, OutputError>(j),
            None => r matches Err(OutputError::InvalidProbe(_)),
        },
{
    match read_json(source) {
        Ok(j) => Ok(j),
        Err(message) => Err(OutputError::InvalidProbe(message)),
    }
}

/// The streams the report lists, if `streams` is an array.
pub open spec fn probe_streams(doc: Json) -> Option<Seq<Json>> {
    match json_get(doc, "streams"@) {
        Some(Json::Array(items)) => Some(items@),
        _ => None,
    }
}

/// A stream whose `codec_type` is the text `video`.
pub open spec fn is_video_stream(stream: Json) -> bool {
    json_text(json_get(stream, "codec_type"@)) == Some("video"@)
}

/// Text field `key` of the report's `format` object.
pub open spec fn format_field(doc: Json, key: Seq<char>) -> Option<Seq<char>> {
    match json_get(doc, "format"@) {
        Some(f) => json_text(json_get(f, key)),
        None => None,
    }
}

/// A report of acceptable media: `streams` is an array holding a video
/// stream, and `format` has a non-empty text `format_name`.
pub open spec fn acceptable_report(doc: Json) -> bool {
    match (probe_streams(doc), format_field(doc, "format_name"@)) {
        (Some(streams), Some(name)) => has_video_stream(streams) && name.len() > 0,
        _ => false,
    }
}

/// Some stream of the list is a video stream.
pub open spec fn has_video_stream(streams: Seq<Json>) -> bool {
    exists|i: int| 0 <= i < streams.len() && #[trigger] is_video_stream(streams[i])
}

/// Whether a stream is a video stream.
fn video_stream(stream: &Json) -> (b: bool)
    ensures
        b == is_video_stream(*stream),
{
    match stream.get("codec_type") {
        Some(kind) => match kind.as_text() {
            Some(t) => str_eq(t, "video"),
            None => false,
        },
        None => false,
    }
}

/// The text of the report's `format.duration`, when it is a string.
pub fn duration_text(doc: &Json) -> (r: Option<String>)
    ensures
        opt_text(r) == format_field(*doc, "duration"@),
{
    match doc.get("format") {
        Some(format) => match format.get("duration") {
            Some(d) => match d.as_text() {
                Some(t) => Some(owned(t)),
                None => None,
            },
            None => None,
        },
        None => None,
    }
}

/// What the probe found: invalid media unless the report lists a video
/// stream and names its format; then the error from reading the duration
/// (`duration_text`), if any; else the media with that duration.
pub fn media_from_json(doc: &Json, duration: Result<Option<u64>, OutputError>) -> (r: Result<MediaInfo, OutputError>)
    ensures
        !acceptable_report(*doc) ==> r == Err::<MediaInfo, OutputError>(OutputError::InvalidMedia),
        acceptable_report(*doc) ==> match duration {
            Err(e) => r == Err::<MediaInfo, OutputError>(e),
            Ok(d) => r matches Ok(m) && m.has_video && Some(m.format_name@) == format_field(
                *doc,
                "format_name"@,
            ) && m.duration_seconds == d,
        },
{
    let streams = match doc.get("streams") {
        Some(Json::Array(items)) => items,
        _ => {
            return Err(OutputError::InvalidMedia);
        },
    };
    let mut has_video = false;
    let mut i: usize = 0;
    while i < streams.len()
        invariant
            i <= streams.len(),
            has_video == exists|j: int| 0 <= j < i && #[trigger] is_video_stream(streams@[j]),
        decreases streams.len() - i,
    {
        let v = video_stream(&streams[i]);
        proof {
            if v {
                assert(is_video_stream(streams@[i as int]));
            }
        }
        has_video = has_video || v;
        i = i + 1;
    }
    if !has_video {
        return Err(OutputError::InvalidMedia);
    }
    let format = match doc.get("format") {
        Some(f) => f,
        None => {
            return Err(OutputError::InvalidMedia);
        },
    };
    let format_name = match format.get("format_name") {
        Some(n) => match n.as_text() {
            Some(t) => t,
            None => {
                return Err(OutputError::InvalidMedia);
            },
        },
        None => {
            return Err(OutputError::InvalidMedia);
        },
    };
    if format_name.is_empty() {
        return Err(OutputError::InvalidMedia);
    }
    assert(probe_streams(*doc) == Some(streams@));
    assert(has_video_stream(streams@));
    assert(format_field(*doc, "format_name"@) == Some(format_name@));
    match duration {
        Err(e) => Err(e),
        Ok(d) => Ok(MediaInfo { has_video: true, duration_seconds: d, format_name: owned(format_name) }),
    }
}

/// A media probe that accepts every file, for tests and dry runs.
#[derive(Clone, Copy, Debug)]
pub struct AcceptingProbe;

impl AcceptingProbe {
    pub fn probe(&self, path: &str) -> (r: Result<MediaInfo, OutputError>)
        ensures
            r matches Ok(m) && m.has_video && m.duration_seconds == Some(1u64) && m.format_name@
                == "mov,mp4,m4a,3gp,3g2,mj2"@,
    {
        Ok(
            MediaInfo {
                has_video: true,
                duration_seconds: Some(1),
                format_name: owned("mov,mp4,m4a,3gp,3g2,mj2"),
            },
        )
    }
}

/// `ffprobe` with bounded analysis.
#[derive(Clone, Debug)]
pub struct Ffprobe {
    binary: String,
}

/// The probe's options, then `--`, then the path, so that no path is read as an option.
pub open spec fn ffprobe_arguments(path: Seq<char>) -> Seq<Seq<char>> {
    seq![
        "-hide_banner"@,
        "-loglevel"@,
        "error"@,
        "-print_format"@,
        "json"@,
        "-show_format"@,
        "-show_streams"@,
        "-analyzeduration"@,
        "2000000"@,
        "-probesize"@,
        "2000000"@,
        "--"@,
        path,
    ]
}

impl Ffprobe {
    pub closed spec fn program(self) -> Seq<char> {
        self.binary@
    }

    pub fn new(binary: &str) -> (f: Self)
        ensures
            f.program() == binary@,
    {
        Ffprobe { binary: owned(binary) }
    }

    pub fn binary(&self) -> (s: &str)
        ensures
            s@ == self.program(),
    {
        self.binary.as_str()
    }

    pub fn arguments(path: &str) -> (r: Vec<String>)
        ensures
            texts(r@) == ffprobe_arguments(path@),
    {
        let r = vec![
            owned("-hide_banner"),
            owned("-loglevel"),
            owned("error"),
            owned("-print_format"),
            owned("json"),
            owned("-show_format"),
            owned("-show_streams"),
            owned("-analyzeduration"),
            owned("2000000"),
            owned("-probesize"),
            owned("2000000"),
            owned("--"),
            owned(path),
        ];
        assert(texts(r@) =~= ffprobe_arguments(path@));
        r
    }
}

} // verus!
