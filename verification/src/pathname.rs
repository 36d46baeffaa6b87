//! Path arithmetic on UTF-8 path texts, through `std::path::Path`.

use vstd::prelude::*;

verus! {

/// What `Path::parent` gives for a path text.
pub uninterp spec fn path_parent(p: Seq<char>) -> Option<Seq<char>>;

/// What `Path::file_name` gives for a path text.
pub uninterp spec fn path_file_name(p: Seq<char>) -> Option<Seq<char>>;

/// What `Path::join` gives for two path texts.
pub uninterp spec fn path_join(a: Seq<char>, b: Seq<char>) -> Seq<char>;

/// What `Path::with_file_name` gives for a path text and a file name.
pub uninterp spec fn path_with_file_name(p: Seq<char>, name: Seq<char>) -> Seq<char>;

/// What `Path == Path` gives for two path texts.
pub uninterp spec fn path_eq(a: Seq<char>, b: Seq<char>) -> bool;

pub open spec fn opt_text(r: Option<String>) -> Option<Seq<char>> {
    match r {
        Some(s) => Some(s@),
        None => None,
    }
}

/// `Path::new(p).parent()`. Component rules are the standard library's; the
/// result is named, not restated, beyond its documented `None` for the empty path.
#[verifier::external_body]
pub(crate) fn parent(p: &str) -> (r: Option<String>)
    ensures
        opt_text(r) == path_parent(p@),
        p@.len() == 0 ==> r is None,
{
    match std::path::Path::new(p).parent() {
        Some(q) => Some(q.to_string_lossy().into_owned()),
        None => None,
    }
}

/// `Path::new(p).file_name()`. Component rules are the standard library's;
/// the result is named, not restated.
#[verifier::external_body]
pub(crate) fn file_name(p: &str) -> (r: Option<String>)
    ensures
        opt_text(r) == path_file_name(p@),
{
    match std::path::Path::new(p).file_name() {
        Some(q) => Some(q.to_string_lossy().into_owned()),
        None => None,
    }
}

/// `Path::new(a).join(b)`. Separator handling is the standard library's; the
/// result is named, not restated, beyond the documented rule that an
/// absolute `b` replaces `a`.
#[verifier::external_body]
pub(crate) fn join(a: &str, b: &str) -> (r: String)
    ensures
        r@ == path_join(a@, b@),
        b@.len() > 0 && b@[0] == '/' ==> r@ == b@,
{
    std::path::Path::new(a).join(b).to_string_lossy().into_owned()
}

/// `Path::new(a) == Path::new(b)`: paths compare by their components, so
/// texts that differ only in separators (a trailing `/`, a doubled `/`, an
/// inner `.`) may name the same path. The comparison is named; that a text
/// equals itself is stated.
#[verifier::external_body]
pub(crate) fn same_path(a: &str, b: &str) -> (r: bool)
    ensures
        r == path_eq(a@, b@),
        a@ == b@ ==> r,
{
    std::path::Path::new(a) == std::path::Path::new(b)
}

/// `Path::new(p).with_file_name(name)`. How the last component is replaced
/// is the standard library's; the result is named, not restated.
#[verifier::external_body]
pub(crate) fn with_file_name(p: &str, name: &str) -> (r: String)
    ensures
        r@ == path_with_file_name(p@, name@),
{
    std::path::Path::new(p).with_file_name(name).to_string_lossy().into_owned()
}

/// Index of the last `.` in `name`, or -1.
pub open spec fn last_dot(name: Seq<char>) -> int
    decreases name.len(),
{
    if name.len() == 0 {
        -1
    } else if name.last() == '.' {
        name.len() - 1
    } else {
        last_dot(name.drop_last())
    }
}

/// Extension of a file name, as `Path::extension` documents it: the text after
/// the final `.`, unless there is none or the only `.` starts the name.
pub open spec fn name_extension(name: Seq<char>) -> Option<Seq<char>> {
    let k = last_dot(name);
    if k <= 0 {
        None
    } else {
        Some(name.skip(k + 1))
    }
}

/// Stem of a file name, as `Path::file_stem` documents it.
pub open spec fn name_stem(name: Seq<char>) -> Seq<char> {
    let k = last_dot(name);
    if k <= 0 {
        name
    } else {
        name.take(k)
    }
}

pub open spec fn path_extension(p: Seq<char>) -> Option<Seq<char>> {
    match path_file_name(p) {
        Some(name) => name_extension(name),
        None => None,
    }
}

pub open spec fn path_stem(p: Seq<char>) -> Option<Seq<char>> {
    match path_file_name(p) {
        Some(name) => Some(name_stem(name)),
        None => None,
    }
}

proof fn lemma_last_dot(name: Seq<char>)
    ensures
        -1 <= last_dot(name) < name.len(),
        last_dot(name) >= 0 ==> name[last_dot(name)] == '.',
        forall|i: int| last_dot(name) < i < name.len() ==> #[trigger] name[i] != '.',
    decreases name.len(),
{
    if name.len() > 0 && name.last() != '.' {
        lemma_last_dot(name.drop_last());
        assert forall|i: int| last_dot(name) < i < name.len() implies #[trigger] name[i] != '.' by {
            if i < name.len() - 1 {
                assert(name[i] == name.drop_last()[i]);
            }
        }
    }
}

/// Position of the last `.` of `v`, if any.
fn find_last_dot(v: &[char]) -> (r: Option<usize>)
    ensures
        match r {
            Some(k) => k as int == last_dot(v@),
            None => last_dot(v@) == -1,
        },
{
    let mut i = v.len();
    assert(v@.take(i as int) =~= v@);
    while i > 0
        invariant
            i <= v@.len(),
            last_dot(v@) == last_dot(v@.take(i as int)),
        decreases i,
    {
        if v[i - 1] == '.' {
            assert(v@.take(i as int).last() == '.');
            return Some(i - 1);
        }
        assert(v@.take(i as int).drop_last() =~= v@.take(i - 1));
        i = i - 1;
    }
    assert(v@.take(0) =~= Seq::<char>::empty());
    None
}

/// `Path::extension` of a file name.
pub fn extension_of_name(name: &[char]) -> (r: Option<Vec<char>>)
    ensures
        match name_extension(name@) {
            Some(e) => r matches Some(x) && x@ == e,
            None => r is None,
        },
{
    match find_last_dot(name) {
        Some(k) => if k == 0 {
            None
        } else {
            proof {
                lemma_last_dot(name@);
            }
            assert(k < name@.len());
            assert(k < name.len());
            let e = crate::text::slice_range(name, k + 1, name.len());
            assert(e@ =~= name@.skip(k + 1));
            Some(e)
        },
        None => None,
    }
}

/// `Path::file_stem` of a file name.
pub fn stem_of_name(name: &[char]) -> (r: Vec<char>)
    ensures
        r@ == name_stem(name@),
{
    match find_last_dot(name) {
        Some(k) => if k == 0 {
            crate::text::slice_range(name, 0, name.len())
        } else {
            proof {
                lemma_last_dot(name@);
            }
            crate::text::slice_range(name, 0, k)
        },
        None => crate::text::slice_range(name, 0, name.len()),
    }
}

/// `Path::new(p).extension()`.
pub fn extension(p: &str) -> (r: Option<String>)
    ensures
        opt_text(r) == path_extension(p@),
{
    match file_name(p) {
        Some(name) => {
            let v = crate::text::chars_of(name.as_str());
            match extension_of_name(v.as_slice()) {
                Some(e) => Some(crate::text::string_from(e.as_slice())),
                None => None,
            }
        },
        None => None,
    }
}

/// `Path::new(p).file_stem()`.
pub fn stem(p: &str) -> (r: Option<String>)
    ensures
        opt_text(r) == path_stem(p@),
{
    match file_name(p) {
        Some(name) => {
            let v = crate::text::chars_of(name.as_str());
            let s = stem_of_name(v.as_slice());
            Some(crate::text::string_from(s.as_slice()))
        },
        None => None,
    }
}

} // verus!
