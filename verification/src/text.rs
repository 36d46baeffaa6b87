//! Character-sequence helpers shared by the parsers and planners.

use vstd::prelude::*;

verus! {

/// `String::push`: appends one character to the end of the string.
#[verifier::external_body]
pub(crate) fn push_char(s: &mut String, c: char)
    ensures
        final(s)@ == old(s)@.push(c),
{
    s.push(c);
}

/// The characters of `s`, in order.
pub fn chars_of(s: &str) -> (v: Vec<char>)
    ensures
        v@ == s@,
{
    let mut v: Vec<char> = Vec::new();
    for c in it: s.chars()
        invariant
            v@ == it.seq().take(it.index() as int),
            it.seq() == s@,
    {
        v.push(c);
    }
    v
}

/// A new string holding `v[lo..hi]`.
pub fn string_of(v: &[char], lo: usize, hi: usize) -> (s: String)
    requires
        lo <= hi <= v@.len(),
    ensures
        s@ == v@.subrange(lo as int, hi as int),
{
    let mut s = String::new();
    let mut i = lo;
    while i < hi
        invariant
            lo <= i <= hi <= v@.len(),
            s@ == v@.subrange(lo as int, i as int),
        decreases hi - i,
    {
        push_char(&mut s, v[i]);
        i = i + 1;
        assert(s@ =~= v@.subrange(lo as int, i as int));
    }
    s
}

} // verus!

verus! {

/// Unicode `White_Space` characters, the set `char::is_whitespace` accepts.
pub open spec fn is_white(c: char) -> bool {
    let n = c as u32;
    ||| 0x09 <= n <= 0x0d
    ||| n == 0x20
    ||| n == 0x85
    ||| n == 0xa0
    ||| n == 0x1680
    ||| 0x2000 <= n <= 0x200a
    ||| n == 0x2028
    ||| n == 0x2029
    ||| n == 0x202f
    ||| n == 0x205f
    ||| n == 0x3000
}

pub fn is_white_char(c: char) -> (b: bool)
    ensures
        b == is_white(c),
{
    let n = c as u32;
    (0x09 <= n && n <= 0x0d) || n == 0x20 || n == 0x85 || n == 0xa0 || n == 0x1680 || (0x2000
        <= n && n <= 0x200a) || n == 0x2028 || n == 0x2029 || n == 0x202f || n == 0x205f || n
        == 0x3000
}

/// First index at or after `i` that is not white space (or the length).
pub open spec fn skip_white(s: Seq<char>, i: int) -> int
    decreases s.len() - i,
{
    if 0 <= i < s.len() && is_white(s[i]) {
        skip_white(s, i + 1)
    } else {
        i
    }
}

/// End of `s[lo..j]` once trailing white space is dropped.
pub open spec fn trim_end_at(s: Seq<char>, lo: int, j: int) -> int
    decreases j - lo,
{
    if lo < j && is_white(s[j - 1]) {
        trim_end_at(s, lo, j - 1)
    } else {
        j
    }
}

/// `str::trim`: leading and trailing white space removed.
pub open spec fn trim(s: Seq<char>) -> Seq<char> {
    let a = skip_white(s, 0);
    s.subrange(a, trim_end_at(s, a, s.len() as int))
}

/// `str::trim_start`.
pub open spec fn trim_start(s: Seq<char>) -> Seq<char> {
    s.subrange(skip_white(s, 0), s.len() as int)
}

/// First index at or after `i` holding `c` (or the length).
pub open spec fn find_char(s: Seq<char>, c: char, i: int) -> int
    decreases s.len() - i,
{
    if 0 <= i < s.len() && s[i] != c {
        find_char(s, c, i + 1)
    } else if i < 0 {
        i
    } else {
        if i < s.len() { i } else { s.len() as int }
    }
}

/// First index at or after `i` that is white space (or the length).
pub open spec fn find_white(s: Seq<char>, i: int) -> int
    decreases s.len() - i,
{
    if 0 <= i < s.len() && !is_white(s[i]) {
        find_white(s, i + 1)
    } else {
        i
    }
}

/// `str::split_once(c)`: the parts before and after the first `c`.
pub open spec fn split_once(s: Seq<char>, c: char) -> Option<(Seq<char>, Seq<char>)> {
    let k = find_char(s, c, 0);
    if k < s.len() {
        Some((s.take(k), s.skip(k + 1)))
    } else {
        None
    }
}

pub open spec fn starts_with(s: Seq<char>, p: Seq<char>) -> bool {
    p.len() <= s.len() && s.take(p.len() as int) == p
}

pub open spec fn ends_with(s: Seq<char>, p: Seq<char>) -> bool {
    p.len() <= s.len() && s.skip(s.len() - p.len()) == p
}

pub open spec fn occurs_at(s: Seq<char>, p: Seq<char>, i: int) -> bool {
    0 <= i && i + p.len() <= s.len() && s.subrange(i, i + p.len()) == p
}

/// `str::contains` for a string pattern.
pub open spec fn contains(s: Seq<char>, p: Seq<char>) -> bool {
    exists|i: int| occurs_at(s, p, i)
}

pub open spec fn has_char(s: Seq<char>, c: char) -> bool {
    exists|i: int| 0 <= i < s.len() && s[i] == c
}

proof fn lemma_skip_white_bounds(s: Seq<char>, i: int)
    requires
        0 <= i <= s.len(),
    ensures
        i <= skip_white(s, i) <= s.len(),
        skip_white(s, i) < s.len() ==> !is_white(s[skip_white(s, i)]),
        forall|k: int| i <= k < skip_white(s, i) ==> is_white(#[trigger] s[k]),
    decreases s.len() - i,
{
    if i < s.len() && is_white(s[i]) {
        lemma_skip_white_bounds(s, i + 1);
    }
}

proof fn lemma_find_white_bounds(s: Seq<char>, i: int)
    requires
        0 <= i <= s.len(),
    ensures
        i <= find_white(s, i) <= s.len(),
        find_white(s, i) < s.len() ==> is_white(s[find_white(s, i)]),
        forall|k: int| i <= k < find_white(s, i) ==> !is_white(#[trigger] s[k]),
    decreases s.len() - i,
{
    if i < s.len() && !is_white(s[i]) {
        lemma_find_white_bounds(s, i + 1);
    }
}

pub proof fn lemma_find_char_bounds(s: Seq<char>, c: char, i: int)
    requires
        0 <= i <= s.len(),
    ensures
        i <= find_char(s, c, i) <= s.len(),
        find_char(s, c, i) < s.len() ==> s[find_char(s, c, i)] == c,
        forall|k: int| i <= k < find_char(s, c, i) ==> #[trigger] s[k] != c,
    decreases s.len() - i,
{
    if i < s.len() && s[i] != c {
        lemma_find_char_bounds(s, c, i + 1);
    }
}

proof fn lemma_trim_end_bounds(s: Seq<char>, lo: int, j: int)
    requires
        0 <= lo <= j <= s.len(),
    ensures
        lo <= trim_end_at(s, lo, j) <= j,
    decreases j - lo,
{
    if lo < j && is_white(s[j - 1]) {
        lemma_trim_end_bounds(s, lo, j - 1);
    }
}

/// Index of the first non-white character at or after `i`.
pub fn skip_white_from(v: &[char], i: usize) -> (r: usize)
    requires
        i <= v@.len(),
    ensures
        r == skip_white(v@, i as int),
        i <= r <= v@.len(),
{
    let mut k = i;
    proof {
        lemma_skip_white_bounds(v@, i as int);
    }
    while k < v.len() && is_white_char(v[k])
        invariant
            i <= k <= v@.len(),
            skip_white(v@, k as int) == skip_white(v@, i as int),
        decreases v@.len() - k,
    {
        k = k + 1;
    }
    k
}

/// Index of the first white character at or after `i`.
pub fn find_white_from(v: &[char], i: usize) -> (r: usize)
    requires
        i <= v@.len(),
    ensures
        r == find_white(v@, i as int),
        i <= r <= v@.len(),
{
    let mut k = i;
    proof {
        lemma_find_white_bounds(v@, i as int);
    }
    while k < v.len() && !is_white_char(v[k])
        invariant
            i <= k <= v@.len(),
            find_white(v@, k as int) == find_white(v@, i as int),
        decreases v@.len() - k,
    {
        k = k + 1;
    }
    k
}

/// Index of the first `c` at or after `i`.
pub fn find_char_from(v: &[char], c: char, i: usize) -> (r: usize)
    requires
        i <= v@.len(),
    ensures
        r == find_char(v@, c, i as int),
        i <= r <= v@.len(),
{
    let mut k = i;
    proof {
        lemma_find_char_bounds(v@, c, i as int);
    }
    while k < v.len() && v[k] != c
        invariant
            i <= k <= v@.len(),
            find_char(v@, c, k as int) == find_char(v@, c, i as int),
        decreases v@.len() - k,
    {
        k = k + 1;
    }
    k
}

/// Bounds `(a, b)` with `v[a..b] == trim(v)`.
pub fn trim_bounds(v: &[char]) -> (r: (usize, usize))
    ensures
        r.0 <= r.1 <= v@.len(),
        v@.subrange(r.0 as int, r.1 as int) == trim(v@),
        r.0 == skip_white(v@, 0),
{
    let a = skip_white_from(v, 0);
    let mut b = v.len();
    proof {
        lemma_trim_end_bounds(v@, a as int, v@.len() as int);
    }
    while a < b && is_white_char(v[b - 1])
        invariant
            a <= b <= v@.len(),
            trim_end_at(v@, a as int, b as int) == trim_end_at(v@, a as int, v@.len() as int),
        decreases b,
    {
        b = b - 1;
    }
    (a, b)
}

/// `str::trim` as an owned string.
pub fn trim_str(s: &str) -> (t: String)
    ensures
        t@ == trim(s@),
{
    let v = chars_of(s);
    let (a, b) = trim_bounds(v.as_slice());
    string_of(v.as_slice(), a, b)
}

/// `str::trim` of a character slice.
pub fn trim_chars(v: &[char]) -> (t: Vec<char>)
    ensures
        t@ == trim(v@),
{
    let (a, b) = trim_bounds(v);
    slice_range(v, a, b)
}

/// A new vector holding `v[lo..hi]`.
pub fn slice_range(v: &[char], lo: usize, hi: usize) -> (r: Vec<char>)
    requires
        lo <= hi <= v@.len(),
    ensures
        r@ == v@.subrange(lo as int, hi as int),
{
    let mut r: Vec<char> = Vec::new();
    let mut i = lo;
    while i < hi
        invariant
            lo <= i <= hi <= v@.len(),
            r@ == v@.subrange(lo as int, i as int),
        decreases hi - i,
    {
        r.push(v[i]);
        i = i + 1;
        assert(r@ =~= v@.subrange(lo as int, i as int));
    }
    r
}

/// A new string holding all of `v`.
pub fn string_from(v: &[char]) -> (s: String)
    ensures
        s@ == v@,
{
    let s = string_of(v, 0, v.len());
    assert(v@.subrange(0, v@.len() as int) =~= v@);
    s
}

/// `str::starts_with` on character slices.
pub fn chars_start_with(v: &[char], p: &[char]) -> (b: bool)
    ensures
        b == starts_with(v@, p@),
{
    if p.len() > v.len() {
        return false;
    }
    let mut i: usize = 0;
    while i < p.len()
        invariant
            p@.len() <= v@.len(),
            i <= p@.len(),
            forall|k: int| 0 <= k < i ==> v@[k] == p@[k],
        decreases p@.len() - i,
    {
        if v[i] != p[i] {
            assert(v@.take(p@.len() as int)[i as int] != p@[i as int]);
            return false;
        }
        i = i + 1;
    }
    assert(v@.take(p@.len() as int) =~= p@);
    true
}

/// Whether `p` occurs at position `i` of `v`.
pub fn chars_occur_at(v: &[char], p: &[char], i: usize) -> (b: bool)
    ensures
        b == occurs_at(v@, p@, i as int),
{
    if i > v.len() || p.len() > v.len() - i {
        return false;
    }
    let mut k: usize = 0;
    while k < p.len()
        invariant
            i + p@.len() <= v@.len(),
            v@.len() == v.len(),
            k <= p@.len(),
            forall|j: int| 0 <= j < k ==> v@[i + j] == p@[j],
        decreases p@.len() - k,
    {
        if v[i + k] != p[k] {
            assert(v@.subrange(i as int, i + p@.len())[k as int] != p@[k as int]);
            return false;
        }
        k = k + 1;
    }
    assert(v@.subrange(i as int, i + p@.len()) =~= p@);
    true
}

/// `str::ends_with` on character slices.
pub fn chars_end_with(v: &[char], p: &[char]) -> (b: bool)
    ensures
        b == ends_with(v@, p@),
{
    if p.len() > v.len() {
        return false;
    }
    let start = v.len() - p.len();
    let b = chars_occur_at(v, p, start);
    assert(v@.subrange(start as int, start + p@.len()) =~= v@.skip(v@.len() - p@.len()));
    b
}

/// `str::contains` on character slices.
pub fn chars_contain(v: &[char], p: &[char]) -> (b: bool)
    ensures
        b == contains(v@, p@),
{
    if p.len() > v.len() {
        assert forall|i: int| !occurs_at(v@, p@, i) by {}
        return false;
    }
    let last = v.len() - p.len();
    let mut i: usize = 0;
    loop
        invariant
            last + p@.len() == v@.len(),
            i <= last,
            forall|j: int| 0 <= j < i ==> !occurs_at(v@, p@, j),
        ensures
            forall|j: int| 0 <= j <= last ==> !occurs_at(v@, p@, j),
        decreases last - i,
    {
        if chars_occur_at(v, p, i) {
            return true;
        }
        if i == last {
            break;
        }
        i = i + 1;
    }
    assert forall|j: int| !occurs_at(v@, p@, j) by {
        if 0 <= j && j + p@.len() <= v@.len() {
            assert(j <= last);
        }
    }
    false
}

/// Whether `c` occurs in `v`.
pub fn chars_have(v: &[char], c: char) -> (b: bool)
    ensures
        b == has_char(v@, c),
{
    let k = find_char_from(v, c, 0);
    proof {
        lemma_find_char_bounds(v@, c, 0);
    }
    k < v.len()
}

/// Whether two texts hold the same characters.
pub(crate) fn str_eq(a: &str, b: &str) -> (r: bool)
    ensures
        r == (a@ == b@),
{
    let x = chars_of(a);
    let y = chars_of(b);
    if x.len() != y.len() {
        return false;
    }
    let mut i: usize = 0;
    while i < x.len()
        invariant
            x@ == a@,
            y@ == b@,
            x.len() == y.len(),
            i <= x.len(),
            forall|j: int| 0 <= j < i ==> x@[j] == y@[j],
        decreases x.len() - i,
    {
        if x[i] != y[i] {
            return false;
        }
        i = i + 1;
    }
    assert(a@ =~= b@);
    true
}

} // verus!

verus! {

/// `s` without one trailing carriage return.
pub open spec fn strip_cr(l: Seq<char>) -> Seq<char> {
    if l.len() > 0 && l.last() == '\r' {
        l.drop_last()
    } else {
        l
    }
}

/// `str::lines` of `s[i..]`: split at `\n`, a `\r` before the `\n` dropped,
/// no empty line after a final line ending.
pub open spec fn lines_from(s: Seq<char>, i: int) -> Seq<Seq<char>>
    decreases s.len() - i,
{
    if 0 <= i < s.len() {
        let k = find_char(s, '\n', i);
        if i <= k < s.len() {
            seq![strip_cr(s.subrange(i, k))] + lines_from(s, k + 1)
        } else {
            seq![s.subrange(i, s.len() as int)]
        }
    } else {
        Seq::empty()
    }
}

pub open spec fn lines(s: Seq<char>) -> Seq<Seq<char>> {
    lines_from(s, 0)
}

proof fn lemma_trim_end_keeps(s: Seq<char>, lo: int, j: int, q: int)
    requires
        0 <= lo <= q < j <= s.len(),
        !is_white(s[q]),
    ensures
        trim_end_at(s, lo, j) > q,
    decreases j - lo,
{
    if lo < j && is_white(s[j - 1]) {
        lemma_trim_end_keeps(s, lo, j - 1, q);
    }
}

/// A text with a character that is not white space trims to something.
proof fn lemma_trim_keeps(w: Seq<char>, q: int)
    requires
        0 <= q < w.len(),
        !is_white(w[q]),
    ensures
        trim(w).len() > 0,
{
    lemma_skip_white_bounds(w, 0);
    let a = skip_white(w, 0);
    assert(a <= q);
    lemma_trim_end_keeps(w, a, w.len() as int, q);
    lemma_trim_end_bounds(w, a, w.len() as int);
    assert(trim(w).len() == trim_end_at(w, a, w.len() as int) - a);
}

proof fn lemma_lines_from_keep(s: Seq<char>, i: int, p: int)
    requires
        0 <= i <= p < s.len(),
        !is_white(s[p]),
    ensures
        exists|j: int| 0 <= j < lines_from(s, i).len() && trim(#[trigger] lines_from(s, i)[j]).len() > 0,
    decreases s.len() - i,
{
    lemma_find_char_bounds(s, '\n', i);
    let k = find_char(s, '\n', i);
    let ls = lines_from(s, i);
    if k < s.len() {
        if p < k {
            let sub = s.subrange(i, k);
            let line = strip_cr(sub);
            assert(sub[p - i] == s[p]);
            assert(line[p - i] == s[p]);
            lemma_trim_keeps(line, p - i);
            assert(ls[0] == line);
        } else {
            assert(p != k);
            lemma_lines_from_keep(s, k + 1, p);
            let j = choose|j: int| 0 <= j < lines_from(s, k + 1).len() && trim(
                #[trigger] lines_from(s, k + 1)[j],
            ).len() > 0;
            assert(ls[j + 1] == lines_from(s, k + 1)[j]);
        }
    } else {
        let line = s.subrange(i, s.len() as int);
        assert(line[p - i] == s[p]);
        lemma_trim_keeps(line, p - i);
        assert(ls[0] == line);
    }
}

/// Where white space runs from `i` to `a` and a word from `a` to `b`, the
/// words from `i` are that word and then the words from `b`.
pub proof fn lemma_words_step(s: Seq<char>, i: int, a: int, b: int)
    requires
        0 <= i <= a < b <= s.len(),
        forall|k: int| i <= k < a ==> is_white(#[trigger] s[k]),
        forall|k: int| a <= k < b ==> !is_white(#[trigger] s[k]),
        b == s.len() || is_white(s[b]),
    ensures
        words_from(s, i) == seq![s.subrange(a, b)] + words_from(s, b),
{
    lemma_skip_white_bounds(s, i);
    let sw = skip_white(s, i);
    assert(!is_white(s[a]));
    if sw < a {
        assert(is_white(s[sw]));
    }
    assert(sw == a);
    lemma_find_white_bounds(s, a);
    let fw = find_white(s, a);
    if fw < b {
        assert(!is_white(s[fw]));
    }
    if fw > b {
        assert(!is_white(s[b]));
    }
    assert(fw == b);
}

/// Nothing but white space from `i` on: no more words.
pub proof fn lemma_words_end(s: Seq<char>, i: int)
    requires
        0 <= i <= s.len(),
        forall|k: int| i <= k < s.len() ==> is_white(#[trigger] s[k]),
    ensures
        words_from(s, i) == Seq::<Seq<char>>::empty(),
{
    lemma_skip_white_bounds(s, i);
    lemma_find_white_bounds(s, skip_white(s, i));
}

proof fn lemma_skip_white_shift(p: Seq<char>, t: Seq<char>, k: int)
    requires
        0 <= k <= t.len(),
    ensures
        skip_white(p + t, p.len() + k) == p.len() + skip_white(t, k),
    decreases t.len() - k,
{
    if k < t.len() {
        assert((p + t)[p.len() + k] == t[k]);
        if is_white(t[k]) {
            lemma_skip_white_shift(p, t, k + 1);
        }
    }
}

proof fn lemma_find_white_shift(p: Seq<char>, t: Seq<char>, k: int)
    requires
        0 <= k <= t.len(),
    ensures
        find_white(p + t, p.len() + k) == p.len() + find_white(t, k),
    decreases t.len() - k,
{
    if k < t.len() {
        assert((p + t)[p.len() + k] == t[k]);
        if !is_white(t[k]) {
            lemma_find_white_shift(p, t, k + 1);
        }
    }
}

/// The words of `p + t` from inside `t` are those of `t`.
proof fn lemma_words_shift(p: Seq<char>, t: Seq<char>, k: int)
    requires
        0 <= k <= t.len(),
    ensures
        words_from(p + t, p.len() + k) == words_from(t, k),
    decreases t.len() - k,
{
    lemma_skip_white_shift(p, t, k);
    lemma_skip_white_bounds(t, k);
    let a = skip_white(t, k);
    lemma_find_white_shift(p, t, a);
    lemma_find_white_bounds(t, a);
    let b = find_white(t, a);
    if k <= a < b <= t.len() {
        lemma_words_shift(p, t, b);
        assert((p + t).subrange(p.len() + a, p.len() + b) =~= t.subrange(a, b));
    }
}

proof fn lemma_skip_white_run(s: Seq<char>, i: int, j: int)
    requires
        0 <= i <= j <= s.len(),
        forall|k: int| i <= k < j ==> is_white(#[trigger] s[k]),
    ensures
        skip_white(s, i) == skip_white(s, j),
    decreases j - i,
{
    if i < j {
        lemma_skip_white_run(s, i + 1, j);
    }
}

/// A word, then white space, then `t`: that word and the words of `t`.
pub proof fn lemma_words_prepend(w: Seq<char>, sep: Seq<char>, t: Seq<char>)
    requires
        w.len() > 0,
        forall|k: int| 0 <= k < w.len() ==> !is_white(#[trigger] w[k]),
        sep.len() > 0,
        forall|k: int| 0 <= k < sep.len() ==> is_white(#[trigger] sep[k]),
    ensures
        words(w + sep + t) == seq![w] + words(t),
{
    let s = w + sep + t;
    let n = w.len() as int;
    let m = sep.len() as int;
    assert forall|k: int| 0 <= k < n implies !is_white(#[trigger] s[k]) by {
        assert(s[k] == w[k]);
    }
    assert forall|k: int| n <= k < n + m implies is_white(#[trigger] s[k]) by {
        assert(s[k] == sep[k - n]);
    }
    assert(is_white(s[n]));
    lemma_words_step(s, 0, 0, n);
    assert(s.subrange(0, n) =~= w);
    lemma_skip_white_run(s, n, n + m);
    lemma_skip_white_bounds(s, n + m);
    lemma_skip_white_bounds(s, n);
    lemma_find_white_bounds(s, skip_white(s, n));
    assert(words_from(s, n) == words_from(s, n + m));
    assert(s =~= (w + sep) + t);
    lemma_words_shift(w + sep, t, 0);
}

/// A text that is not blank has a line that is not blank.
pub proof fn lemma_nonblank_text_has_nonblank_line(s: Seq<char>)
    requires
        trim(s).len() > 0,
    ensures
        exists|j: int| 0 <= j < lines(s).len() && trim(#[trigger] lines(s)[j]).len() > 0,
{
    lemma_skip_white_bounds(s, 0);
    let a = skip_white(s, 0);
    lemma_trim_end_bounds(s, a, s.len() as int);
    assert(trim(s).len() == trim_end_at(s, a, s.len() as int) - a);
    assert(a < s.len());
    lemma_lines_from_keep(s, 0, a);
    assert(lines(s) == lines_from(s, 0));
}

/// `str::split_whitespace` of `s[i..]`.
pub open spec fn words_from(s: Seq<char>, i: int) -> Seq<Seq<char>>
    decreases s.len() - i,
{
    let a = skip_white(s, i);
    let b = find_white(s, a);
    if 0 <= i <= a < b <= s.len() {
        seq![s.subrange(a, b)] + words_from(s, b)
    } else {
        Seq::empty()
    }
}

pub open spec fn words(s: Seq<char>) -> Seq<Seq<char>> {
    words_from(s, 0)
}

/// The views of a list of strings.
pub open spec fn texts(v: Seq<String>) -> Seq<Seq<char>> {
    v.map_values(|x: String| x@)
}

/// `str::lines`, each line an owned string.
pub fn split_lines(v: &[char]) -> (r: Vec<String>)
    ensures
        texts(r@) == lines(v@),
{
    let mut r: Vec<String> = Vec::new();
    let mut i: usize = 0;
    while i < v.len()
        invariant
            i <= v@.len(),
            texts(r@) + lines_from(v@, i as int) == lines(v@),
        decreases v@.len() - i,
    {
        let k = find_char_from(v, '\n', i);
        proof {
            lemma_find_char_bounds(v@, '\n', i as int);
        }
        if k < v.len() {
            let mut end = k;
            if end > i && v[end - 1] == '\r' {
                end = end - 1;
            }
            let line = string_of(v, i, end);
            let ghost old_r = texts(r@);
            assert(line@ == strip_cr(v@.subrange(i as int, k as int)));
            r.push(line);
            assert(texts(r@) =~= old_r.push(line@));
            assert(lines_from(v@, i as int) == seq![line@] + lines_from(v@, k + 1));
            assert(texts(r@) + lines_from(v@, k + 1) =~= old_r + lines_from(v@, i as int));
            i = k + 1;
        } else {
            let line = string_of(v, i, v.len());
            let ghost old_r = texts(r@);
            r.push(line);
            assert(texts(r@) =~= old_r.push(line@));
            assert(lines_from(v@, i as int) == seq![line@]);
            assert(lines_from(v@, v@.len() as int) =~= Seq::<Seq<char>>::empty());
            assert(texts(r@) + lines_from(v@, v@.len() as int) =~= old_r + lines_from(v@, i as int));
            i = v.len();
        }
    }
    assert(lines_from(v@, i as int) =~= Seq::<Seq<char>>::empty());
    assert(texts(r@) + Seq::<Seq<char>>::empty() =~= texts(r@));
    r
}

/// `str::split_whitespace`, each word an owned string.
pub fn split_words(v: &[char]) -> (r: Vec<String>)
    ensures
        texts(r@) == words(v@),
{
    let mut r: Vec<String> = Vec::new();
    let mut i: usize = 0;
    while i < v.len()
        invariant
            i <= v@.len(),
            texts(r@) + words_from(v@, i as int) == words(v@),
        decreases v@.len() - i,
    {
        let a = skip_white_from(v, i);
        proof {
            lemma_skip_white_bounds(v@, i as int);
        }
        if a == v.len() {
            proof {
                lemma_find_white_bounds(v@, a as int);
            }
            assert(words_from(v@, i as int) =~= Seq::<Seq<char>>::empty());
            i = v.len();
        } else {
            let b = find_white_from(v, a);
            proof {
                lemma_find_white_bounds(v@, a as int);
                lemma_find_white_bounds(v@, a as int + 1);
            }
            assert(find_white(v@, a as int) == find_white(v@, a + 1));
            let word = string_of(v, a, b);
            let ghost old_r = texts(r@);
            r.push(word);
            assert(texts(r@) =~= old_r.push(word@));
            assert(words_from(v@, i as int) == seq![word@] + words_from(v@, b as int));
            assert(texts(r@) + words_from(v@, b as int) =~= old_r + words_from(v@, i as int));
            i = b;
        }
    }
    proof {
        lemma_skip_white_bounds(v@, i as int);
        lemma_find_white_bounds(v@, i as int);
    }
    assert(words_from(v@, i as int) =~= Seq::<Seq<char>>::empty());
    assert(texts(r@) + Seq::<Seq<char>>::empty() =~= texts(r@));
    r
}

/// `str::split_once(c)` on a character slice.
pub fn split_once_chars(v: &[char], c: char) -> (r: Option<(Vec<char>, Vec<char>)>)
    ensures
        match split_once(v@, c) {
            Some((a, b)) => r matches Some((x, y)) && x@ == a && y@ == b,
            None => r is None,
        },
{
    let k = find_char_from(v, c, 0);
    proof {
        lemma_find_char_bounds(v@, c, 0);
    }
    if k < v.len() {
        let left = slice_range(v, 0, k);
        let right = slice_range(v, k + 1, v.len());
        assert(v@.subrange(0, k as int) =~= v@.take(k as int));
        assert(v@.subrange(k + 1, v@.len() as int) =~= v@.skip(k + 1));
        Some((left, right))
    } else {
        None
    }
}

/// Appends all of `r` to `out`.
pub fn push_all(out: &mut Vec<char>, r: &[char])
    ensures
        final(out)@ == old(out)@ + r@,
{
    let mut i: usize = 0;
    while i < r.len()
        invariant
            i <= r@.len(),
            out@ == old(out)@ + r@.take(i as int),
        decreases r@.len() - i,
    {
        out.push(r[i]);
        i = i + 1;
        assert(out@ =~= old(out)@ + r@.take(i as int));
    }
    assert(r@.take(r@.len() as int) =~= r@);
}

/// `str::replace` for a non-empty pattern: every leftmost non-overlapping
/// occurrence of `p` in `s` replaced by `r`.
pub open spec fn replace_all(s: Seq<char>, p: Seq<char>, r: Seq<char>) -> Seq<char>
    decreases s.len(),
{
    if p.len() == 0 || s.len() < p.len() {
        s
    } else if s.take(p.len() as int) == p {
        r + replace_all(s.skip(p.len() as int), p, r)
    } else {
        seq![s[0]] + replace_all(s.drop_first(), p, r)
    }
}

pub fn replace_chars(v: &[char], p: &[char], r: &[char]) -> (out: Vec<char>)
    requires
        p@.len() > 0,
    ensures
        out@ == replace_all(v@, p@, r@),
{
    let mut out: Vec<char> = Vec::new();
    let mut i: usize = 0;
    assert(v@.skip(0) =~= v@);
    assert(out@ + replace_all(v@, p@, r@) =~= replace_all(v@, p@, r@));
    while i < v.len()
        invariant
            i <= v@.len(),
            p@.len() > 0,
            out@ + replace_all(v@.skip(i as int), p@, r@) == replace_all(v@, p@, r@),
        decreases v@.len() - i,
    {
        let ghost rest = v@.skip(i as int);
        if p.len() > v.len() - i {
            assert(replace_all(rest, p@, r@) == rest);
            let ghost old_out = out@;
            let tail = slice_range(v, i, v.len());
            push_all(&mut out, tail.as_slice());
            assert(tail@ =~= rest);
            assert(v@.skip(v@.len() as int) =~= Seq::<char>::empty());
            assert(replace_all(Seq::<char>::empty(), p@, r@) == Seq::<char>::empty());
            assert(out@ + replace_all(v@.skip(v@.len() as int), p@, r@) =~= out@);
            i = v.len();
        } else if chars_occur_at(v, p, i) {
            assert(rest.take(p@.len() as int) =~= v@.subrange(i as int, i + p@.len()));
            assert(rest.skip(p@.len() as int) =~= v@.skip(i + p@.len()));
            let ghost old_out = out@;
            push_all(&mut out, r);
            assert(out@ + replace_all(v@.skip(i + p@.len()), p@, r@) =~= old_out + replace_all(rest, p@, r@));
            i = i + p.len();
        } else {
            assert(rest.take(p@.len() as int) =~= v@.subrange(i as int, i + p@.len()));
            assert(rest.drop_first() =~= v@.skip(i + 1));
            let ghost old_out = out@;
            out.push(v[i]);
            assert(out@ + replace_all(v@.skip(i + 1), p@, r@) =~= old_out + replace_all(rest, p@, r@));
            i = i + 1;
        }
    }
    assert(v@.skip(i as int) =~= Seq::<char>::empty());
    assert(out@ + Seq::<char>::empty() =~= out@);
    out
}

/// `str::replace` for a non-empty pattern.
pub fn replace_str(s: &str, p: &str, r: &str) -> (out: String)
    requires
        p@.len() > 0,
    ensures
        out@ == replace_all(s@, p@, r@),
{
    let v = chars_of(s);
    let pv = chars_of(p);
    let rv = chars_of(r);
    let out = replace_chars(v.as_slice(), pv.as_slice(), rv.as_slice());
    string_from(out.as_slice())
}

pub open spec fn ascii_lower(c: char) -> char {
    if 'A' <= c <= 'Z' {
        ((c as u32) + 32) as char
    } else {
        c
    }
}

/// `to_ascii_lowercase` of a character sequence.
pub open spec fn lower(s: Seq<char>) -> Seq<char> {
    s.map_values(|c: char| ascii_lower(c))
}

pub fn lower_char(c: char) -> (d: char)
    ensures
        d == ascii_lower(c),
{
    if 'A' <= c && c <= 'Z' {
        let n = (c as u32) + 32;
        proof {
            assert(n == (c as u32) + 32);
        }
        char_of(n)
    } else {
        c
    }
}

/// `char::from_u32` for a known ASCII value.
fn char_of(n: u32) -> (c: char)
    requires
        n < 128,
    ensures
        c == n as char,
{
    (n as u8) as char
}

pub fn lower_chars(v: &[char]) -> (r: Vec<char>)
    ensures
        r@ == lower(v@),
{
    let mut r: Vec<char> = Vec::new();
    let mut i: usize = 0;
    while i < v.len()
        invariant
            i <= v@.len(),
            r@ == lower(v@.take(i as int)),
        decreases v@.len() - i,
    {
        r.push(lower_char(v[i]));
        i = i + 1;
        assert(r@ =~= lower(v@.take(i as int)));
    }
    assert(v@.take(v@.len() as int) =~= v@);
    r
}

} // verus!

verus! {

/// Appends the characters of `s`.
pub fn push_str(out: &mut Vec<char>, s: &str)
    ensures
        final(out)@ == old(out)@ + s@,
{
    let v = chars_of(s);
    push_all(out, v.as_slice());
}

/// `[T]::join(sep)` of texts.
pub open spec fn join(parts: Seq<Seq<char>>, sep: Seq<char>) -> Seq<char>
    decreases parts.len(),
{
    if parts.len() == 0 {
        Seq::empty()
    } else if parts.len() == 1 {
        parts[0]
    } else {
        join(parts.drop_last(), sep) + sep + parts.last()
    }
}

/// Appends `parts.join(sep)`.
pub fn push_joined(out: &mut Vec<char>, parts: &Vec<String>, sep: &str)
    ensures
        final(out)@ == old(out)@ + join(texts(parts@), sep@),
{
    let ghost start = out@;
    let mut i: usize = 0;
    assert(texts(parts@).take(0) =~= Seq::<Seq<char>>::empty());
    assert(out@ =~= start + join(texts(parts@).take(0), sep@));
    while i < parts.len()
        invariant
            i <= parts@.len(),
            out@ == start + join(texts(parts@).take(i as int), sep@),
        decreases parts@.len() - i,
    {
        let ghost prefix = texts(parts@).take(i as int + 1);
        assert(prefix.drop_last() =~= texts(parts@).take(i as int));
        assert(prefix.last() == parts@[i as int]@);
        if i > 0 {
            push_str(out, sep);
        }
        push_str(out, parts[i].as_str());
        i = i + 1;
        if i == 1 {
            assert(prefix.len() == 1);
            assert(out@ =~= start + join(prefix, sep@));
        } else {
            assert(out@ =~= start + join(prefix, sep@));
        }
    }
    assert(texts(parts@).take(parts@.len() as int) =~= texts(parts@));
}

/// A copy of a list of strings.
pub fn copy_strings(v: &Vec<String>) -> (r: Vec<String>)
    ensures
        r@ == v@,
{
    let mut r: Vec<String> = Vec::new();
    let mut i: usize = 0;
    while i < v.len()
        invariant
            i <= v@.len(),
            r@ == v@.take(i as int),
        decreases v@.len() - i,
    {
        r.push(v[i].clone());
        i = i + 1;
        assert(r@ =~= v@.take(i as int));
    }
    assert(v@.take(v@.len() as int) =~= v@);
    r
}

pub fn copy_opt_string(v: &Option<String>) -> (r: Option<String>)
    ensures
        r == *v,
{
    match v {
        Some(s) => Some(s.clone()),
        None => None,
    }
}

/// A string holding the characters of `s`.
pub fn owned(s: &str) -> (r: String)
    ensures
        r@ == s@,
{
    s.to_owned()
}

} // verus!

verus! {

/// Whether some string of `v` reads `s`.
pub open spec fn list_has(v: Seq<String>, s: Seq<char>) -> bool {
    exists|i: int| 0 <= i < v.len() && #[trigger] v[i]@ == s
}

pub fn contains_text(v: &Vec<String>, s: &str) -> (b: bool)
    ensures
        b == list_has(v@, s@),
{
    let mut i: usize = 0;
    while i < v.len()
        invariant
            i <= v@.len(),
            forall|k: int| 0 <= k < i ==> #[trigger] v@[k]@ != s@,
        decreases v@.len() - i,
    {
        if str_eq(v[i].as_str(), s) {
            return true;
        }
        i = i + 1;
    }
    false
}

} // verus!

verus! {

/// First index at or after `i` not holding `c` (or the length).
pub open spec fn skip_char(s: Seq<char>, c: char, i: int) -> int
    decreases s.len() - i,
{
    if 0 <= i < s.len() && s[i] == c {
        skip_char(s, c, i + 1)
    } else {
        i
    }
}

/// End of `s[lo..j]` once trailing `c` are dropped.
pub open spec fn trim_end_char(s: Seq<char>, c: char, lo: int, j: int) -> int
    decreases j - lo,
{
    if lo < j && s[j - 1] == c {
        trim_end_char(s, c, lo, j - 1)
    } else {
        j
    }
}

/// `str::trim_matches(c)`: every leading and trailing `c` removed.
pub open spec fn trim_matches(s: Seq<char>, c: char) -> Seq<char> {
    let a = skip_char(s, c, 0);
    s.subrange(a, trim_end_char(s, c, a, s.len() as int))
}

proof fn lemma_skip_char_bounds(s: Seq<char>, c: char, i: int)
    requires
        0 <= i <= s.len(),
    ensures
        i <= skip_char(s, c, i) <= s.len(),
    decreases s.len() - i,
{
    if i < s.len() && s[i] == c {
        lemma_skip_char_bounds(s, c, i + 1);
    }
}

proof fn lemma_trim_end_char_bounds(s: Seq<char>, c: char, lo: int, j: int)
    requires
        0 <= lo <= j <= s.len(),
    ensures
        lo <= trim_end_char(s, c, lo, j) <= j,
    decreases j - lo,
{
    if lo < j && s[j - 1] == c {
        lemma_trim_end_char_bounds(s, c, lo, j - 1);
    }
}

pub fn trim_matches_chars(v: &[char], c: char) -> (r: Vec<char>)
    ensures
        r@ == trim_matches(v@, c),
{
    let mut a: usize = 0;
    proof {
        lemma_skip_char_bounds(v@, c, 0);
    }
    while a < v.len() && v[a] == c
        invariant
            a <= v@.len(),
            skip_char(v@, c, a as int) == skip_char(v@, c, 0),
        decreases v@.len() - a,
    {
        a = a + 1;
    }
    let mut b = v.len();
    proof {
        lemma_trim_end_char_bounds(v@, c, a as int, v@.len() as int);
    }
    while a < b && v[b - 1] == c
        invariant
            a <= b <= v@.len(),
            trim_end_char(v@, c, a as int, b as int) == trim_end_char(v@, c, a as int, v@.len() as int),
        decreases b,
    {
        b = b - 1;
    }
    slice_range(v, a, b)
}

} // verus!
