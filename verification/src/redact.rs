//! Redaction of support-bundle text: no raw home or runtime directories.

use vstd::prelude::*;
use crate::text::{contains, has_char, occurs_at, replace_all};

verus! {

/// `source` with every `home` replaced by `$HOME`, then every `runtime` by
/// `$XDG_RUNTIME_DIR`; an empty directory is left alone.
pub open spec fn redacted(source: Seq<char>, home: Seq<char>, runtime: Seq<char>) -> Seq<char> {
    let a = if home.len() > 0 {
        replace_all(source, home, "$HOME"@)
    } else {
        source
    };
    if runtime.len() > 0 {
        replace_all(a, runtime, "$XDG_RUNTIME_DIR"@)
    } else {
        a
    }
}

pub fn redact_text(source: &str, home: &str, runtime: &str) -> (r: String)
    ensures
        r@ == redacted(source@, home@, runtime@),
{
    let mut text = crate::text::owned(source);
    if !home.is_empty() {
        text = crate::text::replace_str(text.as_str(), home, "$HOME");
    }
    if !runtime.is_empty() {
        text = crate::text::replace_str(text.as_str(), runtime, "$XDG_RUNTIME_DIR");
    }
    text
}

pub fn contains_sensitive(source: &str, home: &str) -> (b: bool)
    ensures
        b == (home@.len() > 0 && contains(source@, home@)),
{
    if home.is_empty() {
        return false;
    }
    let s = crate::text::chars_of(source);
    let h = crate::text::chars_of(home);
    crate::text::chars_contain(s.as_slice(), h.as_slice())
}

/// While no replacement has begun, the replaced text agrees with the source.
proof fn lemma_untouched_prefix(t: Seq<char>, p: Seq<char>, r: Seq<char>, k: int)
    requires
        p.len() > 0,
        r.len() > 0,
        0 <= k <= replace_all(t, p, r).len(),
        forall|q: int| 0 <= q < k ==> replace_all(t, p, r)[q] != r[0],
    ensures
        k <= t.len(),
        replace_all(t, p, r).take(k) == t.take(k),
    decreases t.len(),
{
    let out = replace_all(t, p, r);
    if t.len() < p.len() {
    } else if t.take(p.len() as int) == p {
        if k > 0 {
            assert(out[0] == r[0]);
        }
    } else if k > 0 {
        let rest = replace_all(t.drop_first(), p, r);
        assert(out == seq![t[0]] + rest);
        assert forall|q: int| 0 <= q < k - 1 implies rest[q] != r[0] by {
            assert(rest[q] == out[q + 1]);
        }
        lemma_untouched_prefix(t.drop_first(), p, r, k - 1);
        assert(out.take(k) =~= seq![t[0]] + rest.take(k - 1));
        assert(t.take(k) =~= seq![t[0]] + t.drop_first().take(k - 1));
    }
}

/// An occurrence in a text with one more character in front is an
/// occurrence in that text, or one at its start.
proof fn lemma_occurs_in_tail(x: Seq<char>, y: Seq<char>, h: Seq<char>, i: int)
    requires
        occurs_at(x + y, h, i),
        i >= x.len(),
    ensures
        occurs_at(y, h, i - x.len()),
{
    assert((x + y).subrange(i, i + h.len()) =~= y.subrange(i - x.len(), i - x.len() + h.len()));
}

/// Replacing every `p` by `r` leaves no `p`, when `p` begins with a
/// character `r` lacks and holds none equal to `r`'s first.
proof fn lemma_replaced_pattern_is_gone(s: Seq<char>, p: Seq<char>, r: Seq<char>)
    requires
        p.len() > 0,
        r.len() > 0,
        !has_char(r, p[0]),
        !has_char(p, r[0]),
    ensures
        !contains(replace_all(s, p, r), p),
    decreases s.len(),
{
    let out = replace_all(s, p, r);
    if s.len() < p.len() {
    } else if s.take(p.len() as int) == p {
        let rest = replace_all(s.skip(p.len() as int), p, r);
        lemma_replaced_pattern_is_gone(s.skip(p.len() as int), p, r);
        assert forall|i: int| !occurs_at(out, p, i) by {
            if occurs_at(out, p, i) {
                if i < r.len() {
                    assert(out[i] == p[0]);
                    assert(r[i] == p[0]);
                } else {
                    lemma_occurs_in_tail(r, rest, p, i);
                }
            }
        }
    } else {
        let t = s.drop_first();
        let rest = replace_all(t, p, r);
        lemma_replaced_pattern_is_gone(t, p, r);
        assert(out == seq![s[0]] + rest);
        assert forall|i: int| !occurs_at(out, p, i) by {
            if occurs_at(out, p, i) {
                if i == 0 {
                    let n = p.len() as int;
                    if exists|q: int| 0 <= q < n - 1 && rest[q] == r[0] {
                        let q = choose|q: int| 0 <= q < n - 1 && rest[q] == r[0];
                        assert(out.subrange(0, n)[q + 1] == p[q + 1]);
                        assert(p[q + 1] == r[0]);
                    } else {
                        lemma_untouched_prefix(t, p, r, n - 1);
                        assert(out.subrange(0, n) =~= seq![s[0]] + rest.take(n - 1));
                        assert(s.take(n) =~= seq![s[0]] + t.take(n - 1));
                    }
                } else {
                    lemma_occurs_in_tail(seq![s[0]], rest, p, i);
                }
            }
        }
    }
}

/// Replacing `q` by `x` makes no new occurrence of `h`, when `h` begins with a
/// character `x` lacks and holds none equal to `x`'s first.
proof fn lemma_replacement_adds_nothing(a: Seq<char>, q: Seq<char>, x: Seq<char>, h: Seq<char>)
    requires
        q.len() > 0,
        x.len() > 0,
        h.len() > 0,
        !has_char(x, h[0]),
        !has_char(h, x[0]),
        !contains(a, h),
    ensures
        !contains(replace_all(a, q, x), h),
    decreases a.len(),
{
    let out = replace_all(a, q, x);
    if a.len() < q.len() {
    } else if a.take(q.len() as int) == q {
        let b = a.skip(q.len() as int);
        let rest = replace_all(b, q, x);
        assert forall|j: int| !occurs_at(b, h, j) by {
            if occurs_at(b, h, j) {
                assert(a.subrange(j + q.len(), j + q.len() + h.len()) =~= b.subrange(j, j + h.len()));
                assert(occurs_at(a, h, j + q.len()));
            }
        }
        lemma_replacement_adds_nothing(b, q, x, h);
        assert forall|i: int| !occurs_at(out, h, i) by {
            if occurs_at(out, h, i) {
                if i < x.len() {
                    assert(out[i] == h[0]);
                    assert(x[i] == h[0]);
                } else {
                    lemma_occurs_in_tail(x, rest, h, i);
                }
            }
        }
    } else {
        let t = a.drop_first();
        let rest = replace_all(t, q, x);
        assert forall|j: int| !occurs_at(t, h, j) by {
            if occurs_at(t, h, j) {
                assert(a.subrange(j + 1, j + 1 + h.len()) =~= t.subrange(j, j + h.len()));
                assert(occurs_at(a, h, j + 1));
            }
        }
        lemma_replacement_adds_nothing(t, q, x, h);
        assert(out == seq![a[0]] + rest);
        assert forall|i: int| !occurs_at(out, h, i) by {
            if occurs_at(out, h, i) {
                if i == 0 {
                    let n = h.len() as int;
                    if exists|k: int| 0 <= k < n - 1 && rest[k] == x[0] {
                        let k = choose|k: int| 0 <= k < n - 1 && rest[k] == x[0];
                        assert(out.subrange(0, n)[k + 1] == h[k + 1]);
                        assert(h[k + 1] == x[0]);
                    } else {
                        lemma_untouched_prefix(t, q, x, n - 1);
                        assert(out.subrange(0, n) =~= seq![a[0]] + rest.take(n - 1));
                        assert(a.subrange(0, n) =~= seq![a[0]] + t.take(n - 1));
                        assert(occurs_at(a, h, 0));
                    }
                } else {
                    lemma_occurs_in_tail(seq![a[0]], rest, h, i);
                }
            }
        }
    }
}

/// An absolute path with no `$` in it: the shape of a directory that
/// redaction hides.
pub open spec fn plain_absolute(d: Seq<char>) -> bool {
    d.len() > 0 && d[0] == '/' && !has_char(d, '$')
}

/// A redacted text holds neither the home nor the runtime directory, where
/// each is given as an absolute path without a `$`.
pub proof fn lemma_redaction_hides_directories(source: Seq<char>, home: Seq<char>, runtime: Seq<char>)
    requires
        home.len() > 0 ==> plain_absolute(home),
        runtime.len() > 0 ==> plain_absolute(runtime),
    ensures
        home.len() > 0 ==> !contains(redacted(source, home, runtime), home),
        runtime.len() > 0 ==> !contains(redacted(source, home, runtime), runtime),
{
    reveal_strlit("$HOME");
    reveal_strlit("$XDG_RUNTIME_DIR");
    let x = "$XDG_RUNTIME_DIR"@;
    let hm = "$HOME"@;
    assert(!has_char(x, '/')) by {
        assert forall|i: int| 0 <= i < x.len() implies x[i] != '/' by {}
    }
    assert(!has_char(hm, '/')) by {
        assert forall|i: int| 0 <= i < hm.len() implies hm[i] != '/' by {}
    }
    let a = if home.len() > 0 {
        replace_all(source, home, hm)
    } else {
        source
    };
    if home.len() > 0 {
        lemma_replaced_pattern_is_gone(source, home, hm);
        if runtime.len() > 0 {
            lemma_replacement_adds_nothing(a, runtime, x, home);
        }
    }
    if runtime.len() > 0 {
        lemma_replaced_pattern_is_gone(a, runtime, x);
    }
}

} // verus!
