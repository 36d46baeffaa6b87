//! Collision-free output naming. A preview is advisory; a start must reserve.

use vstd::prelude::*;
use crate::decimal::dec;
use crate::domain::{container_extension, Container};
use crate::ids::{uuid_text, SessionId};
use crate::pathname::{path_extension, path_join, path_parent, path_stem};
use crate::text::{has_char, replace_all, split_once, starts_with, ends_with, trim, trim_matches, lines, push_str};
use crate::textmap::TextMap;

verus! {

/// Formats a timestamp with a `strftime`-like pattern. Implemented by callers.
pub trait Clock {
    fn formatted_stamp(&self, pattern: &str) -> String;
}

/// Tells whether a path is taken. Implemented by callers.
pub trait OccupiedNames {
    fn is_occupied(&self, path: &str) -> bool;
}

/// A fixed list of taken paths.
impl OccupiedNames for Vec<String> {
    /// Taken exactly when the list holds the path.
    fn is_occupied(&self, path: &str) -> (b: bool)
        ensures
            b == crate::text::list_has(self@, path@),
    {
        crate::text::contains_text(self, path)
    }
}

#[derive(Clone, Debug, PartialEq, Eq)]
pub struct OutputPlan {
    pub final_output: String,
    pub staging_output: String,
    pub first_frame_timestamp: String,
    pub advisory: bool,
}

#[derive(Clone, Debug, PartialEq, Eq)]
pub enum NamingError {
    Exhausted,
}

#[derive(Clone, Debug)]
pub struct OutputNamer {
    pub directory: String,
    pub filename_pattern: String,
    pub container: Container,
}

pub open spec fn parent_or_dot(p: Seq<char>) -> Seq<char> {
    match path_parent(p) {
        Some(q) => q,
        None => "."@,
    }
}

pub open spec fn extension_or_mp4(p: Seq<char>) -> Seq<char> {
    match path_extension(p) {
        Some(e) => e,
        None => "mp4"@,
    }
}

/// `PARENT/.omarec-ID.part.EXT`, the hidden staging name next to the destination.
pub open spec fn staging_text(final_output: Seq<char>, id: u128) -> Seq<char> {
    path_join(
        parent_or_dot(final_output),
        ".omarec-"@ + uuid_text(id as nat) + ".part."@ + extension_or_mp4(final_output),
    )
}

/// The plan for a destination: staging file beside it, timestamp file beside that.
pub open spec fn plan_for(p: OutputPlan, final_output: Seq<char>, id: u128, advisory: bool) -> bool {
    &&& p.final_output@ == final_output
    &&& p.staging_output@ == staging_text(final_output, id)
    &&& p.first_frame_timestamp@ == staging_text(final_output, id) + ".ts"@
    &&& p.advisory == advisory
}

pub open spec fn suffix_text(suffix: Option<u32>) -> Seq<char> {
    match suffix {
        Some(v) => "-"@ + dec(v as nat),
        None => Seq::empty(),
    }
}

/// `STAMP[-N].EXT`.
pub open spec fn candidate_name(stamp: Seq<char>, suffix: Option<u32>, c: Container) -> Seq<char> {
    stamp + suffix_text(suffix) + "."@ + container_extension(c)
}

/// The `k`-th name tried for an explicit destination: `STEM[-k].EXT` in its directory.
pub open spec fn explicit_candidate(final_output: Seq<char>, k: nat) -> Seq<char> {
    let stem = match path_stem(final_output) {
        Some(s) => s,
        None => "capture"@,
    };
    path_join(
        parent_or_dot(final_output),
        stem + (if k == 0 {
            Seq::empty()
        } else {
            "-"@ + dec(k)
        }) + "."@ + extension_or_mp4(final_output),
    )
}

pub fn staging_path(final_output: &str, session_id: SessionId) -> (p: String)
    ensures
        p@ == staging_text(final_output@, session_id.value()),
{
    let parent = match crate::pathname::parent(final_output) {
        Some(q) => q,
        None => crate::text::owned("."),
    };
    let extension = match crate::pathname::extension(final_output) {
        Some(e) => e,
        None => crate::text::owned("mp4"),
    };
    let mut name: Vec<char> = Vec::new();
    push_str(&mut name, ".omarec-");
    push_str(&mut name, session_id.to_string().as_str());
    push_str(&mut name, ".part.");
    push_str(&mut name, extension.as_str());
    let name = crate::text::string_from(name.as_slice());
    crate::pathname::join(parent.as_str(), name.as_str())
}

/// The output plan for a destination.
pub fn paths(final_output: String, session_id: SessionId, advisory: bool) -> (p: OutputPlan)
    ensures
        plan_for(p, final_output@, session_id.value(), advisory),
{
    let staging_output = staging_path(final_output.as_str(), session_id);
    let mut ts: Vec<char> = Vec::new();
    push_str(&mut ts, staging_output.as_str());
    push_str(&mut ts, ".ts");
    let first_frame_timestamp = crate::text::string_from(ts.as_slice());
    OutputPlan { final_output, staging_output, first_frame_timestamp, advisory }
}

/// `STAMP[-N].EXT` for a given stamp.
pub fn name_with_suffix(stamp: &str, suffix: Option<u32>, container: Container) -> (s: String)
    ensures
        s@ == candidate_name(stamp@, suffix, container),
{
    let mut v: Vec<char> = Vec::new();
    push_str(&mut v, stamp);
    if let Some(value) = suffix {
        push_str(&mut v, "-");
        crate::decimal::push_dec(&mut v, value as u64);
    }
    push_str(&mut v, ".");
    push_str(&mut v, container.extension());
    assert(v@ =~= candidate_name(stamp@, suffix, container));
    crate::text::string_from(v.as_slice())
}

impl OutputNamer {
    /// The `k`-th destination tried for a stamp.
    pub open spec fn reserved_name(self, stamp: Seq<char>, k: u32) -> Seq<char> {
        path_join(
            self.directory@,
            candidate_name(
                stamp,
                if k > 0 {
                    Some(k)
                } else {
                    None
                },
                self.container,
            ),
        )
    }

    /// The file name for the clock's current stamp.
    pub fn filename<C: Clock>(&self, clock: &C, suffix: Option<u32>) -> (s: String)
        ensures
            exists|stamp: Seq<char>| s@ == candidate_name(stamp, suffix, self.container),
    {
        let stamp = clock.formatted_stamp(self.filename_pattern.as_str());
        name_with_suffix(stamp.as_str(), suffix, self.container)
    }

    /// Advisory plan for the clock's current stamp; nothing is reserved.
    pub fn preview<C: Clock>(&self, clock: &C) -> (p: OutputPlan)
        ensures
            exists|stamp: Seq<char>| plan_for(
                p,
                path_join(self.directory@, candidate_name(stamp, None, self.container)),
                0,
                true,
            ),
    {
        let name = self.filename(clock, None);
        let final_output = crate::pathname::join(self.directory.as_str(), name.as_str());
        paths(final_output, SessionId::from_u128(0), true)
    }

    /// The plan for the `k`-th destination tried for a stamp: the final and
    /// staging paths that are asked about before it is taken.
    pub fn candidate_plan(&self, stamp: &str, k: u32, session_id: SessionId) -> (p: OutputPlan)
        ensures
            plan_for(p, self.reserved_name(stamp@, k), session_id.value(), false),
    {
        let name = name_with_suffix(stamp, if k > 0 { Some(k) } else { None }, self.container);
        let final_output = crate::pathname::join(self.directory.as_str(), name.as_str());
        paths(final_output, session_id, false)
    }

    /// Reserves the first name of `STAMP`, `STAMP-1`, ... `STAMP-999` whose
    /// final and staging paths are both free. Each try reads the clock's stamp
    /// anew, asks about the candidate's final path and, where that is free,
    /// its staging path, and goes on as `reservation_step` says.
    pub fn reserve<C: Clock, O: OccupiedNames>(&self, clock: &C, session_id: SessionId, occupied: &O) -> (r: Result<OutputPlan, NamingError>)
        ensures
            r matches Ok(p) ==> exists|stamp: Seq<char>, k: u32| k < 1000 && plan_for(
                p,
                #[trigger] self.reserved_name(stamp, k),
                session_id.value(),
                false,
            ),
    {
        let mut suffix: u32 = 0;
        loop
            invariant
                suffix < 1000,
            decreases 1000 - suffix,
        {
            let stamp = clock.formatted_stamp(self.filename_pattern.as_str());
            let plan = self.candidate_plan(stamp.as_str(), suffix, session_id);
            let final_taken = occupied.is_occupied(plan.final_output.as_str());
            let staging_taken = if final_taken {
                true
            } else {
                occupied.is_occupied(plan.staging_output.as_str())
            };
            match reservation_step(suffix, final_taken, staging_taken) {
                ReservationStep::Take => {
                    assert(plan_for(plan, self.reserved_name(stamp@, suffix), session_id.value(), false));
                    return Ok(plan);
                },
                ReservationStep::Next(next) => {
                    suffix = next;
                },
                ReservationStep::Exhausted => {
                    return Err(NamingError::Exhausted);
                },
            }
        }
    }
}

/// What a reservation does with one candidate, given what was found.
#[derive(Clone, Copy, Debug, PartialEq, Eq, Structural)]
pub enum ReservationStep {
    /// Both paths are free: the candidate is taken.
    Take,
    /// Go on with this suffix.
    Next(u32),
    /// The last suffix was taken too: no name is left.
    Exhausted,
}

/// The decision for candidate `suffix`: take it when its final and staging
/// paths are both free, else try the next suffix while one below 1000 is left.
pub fn reservation_step(suffix: u32, final_taken: bool, staging_taken: bool) -> (s: ReservationStep)
    ensures
        s == if !final_taken && !staging_taken {
            ReservationStep::Take
        } else if suffix + 1 < 1000 {
            ReservationStep::Next((suffix + 1) as u32)
        } else {
            ReservationStep::Exhausted
        },
{
    if !final_taken && !staging_taken {
        ReservationStep::Take
    } else if suffix < 999 {
        ReservationStep::Next(suffix + 1)
    } else {
        ReservationStep::Exhausted
    }
}

/// The plan for the `k`-th destination tried for an explicit output.
pub fn explicit_plan(final_output: &str, k: u32, session_id: SessionId) -> (p: OutputPlan)
    ensures
        plan_for(p, explicit_candidate(final_output@, k as nat), session_id.value(), false),
{
    let parent = match crate::pathname::parent(final_output) {
        Some(q) => q,
        None => crate::text::owned("."),
    };
    let stem = match crate::pathname::stem(final_output) {
        Some(s) => s,
        None => crate::text::owned("capture"),
    };
    let extension = match crate::pathname::extension(final_output) {
        Some(e) => e,
        None => crate::text::owned("mp4"),
    };
    let mut name: Vec<char> = Vec::new();
    push_str(&mut name, stem.as_str());
    if k > 0 {
        push_str(&mut name, "-");
        crate::decimal::push_dec(&mut name, k as u64);
    }
    push_str(&mut name, ".");
    push_str(&mut name, extension.as_str());
    assert(name@ =~= stem@ + (if k == 0 {
        Seq::<char>::empty()
    } else {
        "-"@ + dec(k as nat)
    }) + "."@ + extension@);
    let name = crate::text::string_from(name.as_slice());
    let candidate = crate::pathname::join(parent.as_str(), name.as_str());
    assert(candidate@ == explicit_candidate(final_output@, k as nat));
    paths(candidate, session_id, false)
}

/// Reserves an explicit destination, adding `-N` before the extension on
/// collision. Each try asks about the candidate's final path and, where that
/// is free, its staging path, and goes on as `reservation_step` says.
pub fn reserve_explicit<O: OccupiedNames>(final_output: &str, session_id: SessionId, occupied: &O) -> (r: Result<OutputPlan, NamingError>)
    ensures
        r matches Ok(p) ==> exists|k: nat| k < 1000 && plan_for(
            p,
            #[trigger] explicit_candidate(final_output@, k),
            session_id.value(),
            false,
        ),
{
    let mut suffix: u32 = 0;
    loop
        invariant
            suffix < 1000,
        decreases 1000 - suffix,
    {
        let plan = explicit_plan(final_output, suffix, session_id);
        let final_taken = occupied.is_occupied(plan.final_output.as_str());
        let staging_taken = if final_taken {
            true
        } else {
            occupied.is_occupied(plan.staging_output.as_str())
        };
        match reservation_step(suffix, final_taken, staging_taken) {
            ReservationStep::Take => {
                assert(plan_for(plan, explicit_candidate(final_output@, suffix as nat), session_id.value(), false));
                return Ok(plan);
            },
            ReservationStep::Next(next) => {
                suffix = next;
            },
            ReservationStep::Exhausted => {
                return Err(NamingError::Exhausted);
            },
        }
    }
}

/// The `XDG_*_DIR` entry a `user-dirs.dirs` line defines, if any. Only
/// `$HOME` and `${HOME}` are expanded; a value with any other `$` is skipped.
pub open spec fn user_dir_entry(raw: Seq<char>, home: Seq<char>) -> Option<(Seq<char>, Seq<char>)> {
    let line = trim(raw);
    if line.len() == 0 || starts_with(line, "#"@) {
        None
    } else {
        match split_once(line, '=') {
            None => None,
            Some((k0, v0)) => {
                let key = trim(k0);
                if !starts_with(key, "XDG_"@) || !ends_with(key, "_DIR"@) {
                    None
                } else {
                    let v1 = trim_matches(trim(v0), '"');
                    let v2 = replace_all(v1, "${HOME}"@, home);
                    let v3 = replace_all(v2, "$HOME"@, home);
                    if has_char(v3, '$') {
                        None
                    } else {
                        Some((key, v3))
                    }
                }
            },
        }
    }
}

/// The directory the first `n` lines give `key`: the last line defining it wins.
pub open spec fn user_dir(ls: Seq<Seq<char>>, n: int, home: Seq<char>, key: Seq<char>) -> Option<Seq<char>>
    decreases n,
{
    if n <= 0 || n > ls.len() {
        None
    } else {
        match user_dir_entry(ls[n - 1], home) {
            Some((k, v)) => if k == key {
                Some(v)
            } else {
                user_dir(ls, n - 1, home, key)
            },
            None => user_dir(ls, n - 1, home, key),
        }
    }
}

fn user_dir_line(raw: &str, home: &str) -> (r: Option<(String, String)>)
    ensures
        match user_dir_entry(raw@, home@) {
            Some((k, v)) => r matches Some((a, b)) && a@ == k && b@ == v,
            None => r is None,
        },
{
    let v = crate::text::chars_of(raw);
    let line = crate::text::trim_chars(v.as_slice());
    let hash = crate::text::chars_of("#");
    if line.len() == 0 || crate::text::chars_start_with(line.as_slice(), hash.as_slice()) {
        return None;
    }
    let (k0, v0) = match crate::text::split_once_chars(line.as_slice(), '=') {
        Some(parts) => parts,
        None => return None,
    };
    let key = crate::text::trim_chars(k0.as_slice());
    let xdg = crate::text::chars_of("XDG_");
    let dir = crate::text::chars_of("_DIR");
    if !crate::text::chars_start_with(key.as_slice(), xdg.as_slice())
        || !crate::text::chars_end_with(key.as_slice(), dir.as_slice()) {
        return None;
    }
    let v_trim = crate::text::trim_chars(v0.as_slice());
    let v1 = crate::text::trim_matches_chars(v_trim.as_slice(), '"');
    let home_chars = crate::text::chars_of(home);
    let braced = crate::text::chars_of("${HOME}");
    let plain = crate::text::chars_of("$HOME");
    proof {
        reveal_strlit("${HOME}");
        reveal_strlit("$HOME");
    }
    let v2 = crate::text::replace_chars(v1.as_slice(), braced.as_slice(), home_chars.as_slice());
    let v3 = crate::text::replace_chars(v2.as_slice(), plain.as_slice(), home_chars.as_slice());
    if crate::text::chars_have(v3.as_slice(), '$') {
        return None;
    }
    Some((crate::text::string_from(key.as_slice()), crate::text::string_from(v3.as_slice())))
}

/// Parses `user-dirs.dirs` without sourcing shell.
pub fn parse_user_dirs(source: &str, home: &str) -> (r: TextMap<String>)
    ensures
        forall|k: Seq<char>| #[trigger] crate::pathname::opt_text(r.lookup(k)) == user_dir(
            lines(source@),
            lines(source@).len() as int,
            home@,
            k,
        ),
{
    let v = crate::text::chars_of(source);
    let all = crate::text::split_lines(v.as_slice());
    let ghost ls = crate::text::texts(all@);
    let mut dirs: TextMap<String> = TextMap::new();
    let mut i: usize = 0;
    while i < all.len()
        invariant
            i <= all@.len(),
            ls == crate::text::texts(all@),
            ls == lines(source@),
            forall|k: Seq<char>| #[trigger] crate::pathname::opt_text(dirs.lookup(k)) == user_dir(ls, i as int, home@, k),
        decreases all@.len() - i,
    {
        assert(ls[i as int] == all@[i as int]@);
        match user_dir_line(all[i].as_str(), home) {
            Some((key, value)) => {
                let ghost kk = key@;
                let ghost vv = value@;
                dirs.insert(key, value);
                assert forall|k: Seq<char>| #[trigger] crate::pathname::opt_text(dirs.lookup(k)) == user_dir(ls, i + 1, home@, k) by {
                    if k == kk {
                    } else {
                    }
                }
            },
            None => {
                assert forall|k: Seq<char>| #[trigger] crate::pathname::opt_text(dirs.lookup(k)) == user_dir(ls, i + 1, home@, k) by {}
            },
        }
        i = i + 1;
    }
    dirs
}

} // verus!
