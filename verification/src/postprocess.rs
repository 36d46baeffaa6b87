//! The `omarchy_compat` post-processing step: a bounded `ffmpeg` stream copy
//! of staging file A into staging file B. A stays until B is validated and
//! promoted. Running `ffmpeg` is the caller's part.

use vstd::prelude::*;
use crate::output::dash_named;
use crate::text::{owned, texts};

verus! {

#[derive(Clone, Debug, PartialEq, Eq)]
pub enum PostprocessError {
    /// `ffmpeg` could not be started; the system's message.
    Spawn(String),
    Timeout,
    Rejected(Option<i32>),
    /// The source staging file disappeared while copying.
    SourceRemoved,
    /// A file name starts with `-` and could be read as an option.
    DashPrefixedName,
}

/// `ffmpeg` reads `source` and stream-copies it to `destination`, quietly
/// and without reading standard input.
pub open spec fn compat_arguments_of(source: Seq<char>, destination: Seq<char>) -> Seq<Seq<char>> {
    seq![
        "-hide_banner"@,
        "-nostdin"@,
        "-loglevel"@,
        "error"@,
        "-i"@,
        source,
        "-c"@,
        "copy"@,
        destination,
    ]
}

/// The copy's arguments; names that start with `-` are refused before anything runs.
pub fn compat_arguments(source: &str, destination: &str) -> (r: Result<Vec<String>, PostprocessError>)
    ensures
        (dash_named(source@) || dash_named(destination@)) ==> r == Err::<Vec<String>, PostprocessError>(
            PostprocessError::DashPrefixedName,
        ),
        !(dash_named(source@) || dash_named(destination@)) ==> (r matches Ok(a) && texts(a@)
            == compat_arguments_of(source@, destination@)),
{
    if crate::output::dash_prefixed(source) || crate::output::dash_prefixed(destination) {
        return Err(PostprocessError::DashPrefixedName);
    }
    let a = vec![
        owned("-hide_banner"),
        owned("-nostdin"),
        owned("-loglevel"),
        owned("error"),
        owned("-i"),
        owned(source),
        owned("-c"),
        owned("copy"),
        owned(destination),
    ];
    assert(texts(a@) =~= compat_arguments_of(source@, destination@));
    Ok(a)
}

/// After `ffmpeg` ended: it must have succeeded, and the source must still exist.
pub fn compat_result(success: bool, code: Option<i32>, source_exists: bool) -> (r: Result<(), PostprocessError>)
    ensures
        !success ==> r == Err::<(), PostprocessError>(PostprocessError::Rejected(code)),
        success && !source_exists ==> r == Err::<(), PostprocessError>(PostprocessError::SourceRemoved),
        success && source_exists ==> r is Ok,
{
    if !success {
        return Err(PostprocessError::Rejected(code));
    }
    if !source_exists {
        return Err(PostprocessError::SourceRemoved);
    }
    Ok(())
}

} // verus!
