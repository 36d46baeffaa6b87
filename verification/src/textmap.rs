//! A small map from text keys to values, its keys kept in ascending order
//! of their characters, as an ordered map of strings keeps them.

use vstd::prelude::*;

verus! {

/// Text-keyed map. Its entries are sorted by key and keys are distinct; a
/// key maps to the entry that carries it, and `insert` replaces that entry
/// or adds one in its place in the order.
///
/// vstd's specifications of `BTreeMap` hold only for key types shown to obey
/// the ordering laws, and vstd shows this of no `String`; this map keeps the
/// same key order and proves what it does.
#[derive(Clone, Debug, PartialEq, Eq)]
pub struct TextMap<V> {
    entries: Vec<(String, V)>,
}

/// Index of the first entry at or after `i` whose key reads `k`, or the length.
pub open spec fn first_key<V>(e: Seq<(String, V)>, k: Seq<char>, i: int) -> int
    decreases e.len() - i,
{
    if 0 <= i < e.len() && e[i].0@ != k {
        first_key(e, k, i + 1)
    } else if 0 <= i < e.len() {
        i
    } else {
        e.len() as int
    }
}

proof fn lemma_first_key<V>(e: Seq<(String, V)>, k: Seq<char>, i: int)
    requires
        0 <= i <= e.len(),
    ensures
        i <= first_key(e, k, i) <= e.len(),
        first_key(e, k, i) < e.len() ==> e[first_key(e, k, i)].0@ == k,
        forall|j: int| i <= j < first_key(e, k, i) ==> #[trigger] e[j].0@ != k,
    decreases e.len() - i,
{
    if i < e.len() && e[i].0@ != k {
        lemma_first_key(e, k, i + 1);
    }
}

proof fn lemma_first_key_agree<V>(a: Seq<(String, V)>, b: Seq<(String, V)>, k: Seq<char>)
    requires
        a.len() == b.len(),
        forall|j: int| 0 <= j < a.len() ==> #[trigger] a[j].0@ == b[j].0@,
    ensures
        first_key(a, k, 0) == first_key(b, k, 0),
{
    lemma_first_key(a, k, 0);
    lemma_first_key(b, k, 0);
    let x = first_key(a, k, 0);
    let y = first_key(b, k, 0);
    if x < y {
        assert(b[x].0@ != k);
    } else if y < x {
        assert(a[y].0@ != k);
    }
}

/// `a` sorts before `b`: at their first difference `a` has the smaller
/// character, or `a` is a proper prefix of `b` (the order of `str`).
pub open spec fn key_lt(a: Seq<char>, b: Seq<char>) -> bool
    decreases a.len(),
{
    if b.len() == 0 {
        false
    } else if a.len() == 0 {
        true
    } else if a[0] < b[0] {
        true
    } else if a[0] == b[0] {
        key_lt(a.drop_first(), b.drop_first())
    } else {
        false
    }
}

/// Keys strictly ascending.
pub open spec fn sorted_keys<V>(e: Seq<(String, V)>) -> bool {
    forall|i: int, j: int| 0 <= i < j < e.len() ==> key_lt(#[trigger] e[i].0@, #[trigger] e[j].0@)
}

pub proof fn lemma_key_lt_irreflexive(a: Seq<char>)
    ensures
        !key_lt(a, a),
    decreases a.len(),
{
    if a.len() > 0 {
        lemma_key_lt_irreflexive(a.drop_first());
    }
}

pub proof fn lemma_key_lt_transitive(a: Seq<char>, b: Seq<char>, c: Seq<char>)
    requires
        key_lt(a, b),
        key_lt(b, c),
    ensures
        key_lt(a, c),
    decreases a.len(),
{
    if a.len() > 0 && b.len() > 0 && c.len() > 0 && a[0] == b[0] && b[0] == c[0] {
        lemma_key_lt_transitive(a.drop_first(), b.drop_first(), c.drop_first());
    }
}

pub proof fn lemma_key_lt_total(a: Seq<char>, b: Seq<char>)
    requires
        a != b,
    ensures
        key_lt(a, b) || key_lt(b, a),
    decreases a.len(),
{
    if a.len() > 0 && b.len() > 0 && a[0] == b[0] {
        if a.drop_first() == b.drop_first() {
            assert(a =~= seq![a[0]] + a.drop_first());
            assert(b =~= seq![b[0]] + b.drop_first());
        }
        lemma_key_lt_total(a.drop_first(), b.drop_first());
    } else if a.len() == 0 && b.len() == 0 {
        assert(a =~= b);
    }
}

/// Whether `a` sorts before `b`.
pub fn key_less(a: &str, b: &str) -> (r: bool)
    ensures
        r == key_lt(a@, b@),
{
    let x = crate::text::chars_of(a);
    let y = crate::text::chars_of(b);
    let mut i: usize = 0;
    assert(a@.skip(0) =~= a@);
    assert(b@.skip(0) =~= b@);
    while i < x.len() && i < y.len() && x[i] == y[i]
        invariant
            x@ == a@,
            y@ == b@,
            i <= x.len(),
            i <= y.len(),
            key_lt(a@, b@) == key_lt(a@.skip(i as int), b@.skip(i as int)),
        decreases x.len() - i,
    {
        assert(a@.skip(i as int).drop_first() =~= a@.skip(i as int + 1));
        assert(b@.skip(i as int).drop_first() =~= b@.skip(i as int + 1));
        i = i + 1;
    }
    if i == y.len() {
        false
    } else if i == x.len() {
        true
    } else {
        x[i] < y[i]
    }
}

proof fn lemma_lookup_after_insert<V>(before: Seq<(String, V)>, i: int, x: (String, V), k: Seq<char>)
    requires
        0 <= i <= before.len(),
        forall|j: int| 0 <= j < i ==> #[trigger] before[j].0@ != x.0@,
        k != x.0@,
    ensures
        ({
            let after = before.insert(i, x);
            let m = first_key(before, k, 0);
            let n = first_key(after, k, 0);
            &&& (n < after.len()) == (m < before.len())
            &&& m < before.len() ==> after[n] == before[m]
        }),
{
    let after = before.insert(i, x);
    before.insert_ensures(i, x);
    lemma_first_key(before, k, 0);
    lemma_first_key(after, k, 0);
    let m = first_key(before, k, 0);
    let n = first_key(after, k, 0);
    if m < i {
        assert(after[m] == before[m]);
        if n < m {
            assert(after[n] == before[n]);
        }
        assert(n == m);
    } else {
        assert(after[i] == x);
        assert forall|j: int| 0 <= j <= m && j < after.len() implies #[trigger] after[j].0@ != k by {
            if j < i {
                assert(after[j] == before[j]);
                assert(before[j].0@ != k);
            } else if j > i {
                assert(after[j] == before[j - 1]);
                assert(before[j - 1].0@ != k);
            } else {
                assert(after[j].0@ == x.0@);
            }
        }
        if m < before.len() {
            assert(after[m + 1] == before[m]);
            if n < m + 1 {
                assert(after[n].0@ != k);
            }
            if n > m + 1 {
                assert(after[m + 1].0@ != k);
            }
            assert(n == m + 1);
        } else {
            if n < after.len() {
                assert(after[n].0@ == k);
                assert(after[n].0@ != k);
            }
            assert(n == after.len());
        }
    }
}

/// The value `k` selects in a list of entries: that of its first entry.
pub open spec fn entries_lookup<V>(e: Seq<(String, V)>, k: Seq<char>) -> Option<V> {
    let i = first_key(e, k, 0);
    if i < e.len() {
        Some(e[i].1)
    } else {
        None
    }
}

/// The entries with their keys as character sequences.
pub open spec fn entry_views<V>(e: Seq<(String, V)>) -> Seq<(Seq<char>, V)> {
    e.map_values(|p: (String, V)| (p.0@, p.1))
}

proof fn lemma_first_key_shift<V>(e: Seq<(String, V)>, k: Seq<char>, i: int)
    requires
        e.len() > 0,
        0 <= i <= e.len() - 1,
    ensures
        first_key(e, k, i + 1) == 1 + first_key(e.drop_first(), k, i),
    decreases e.len() - i,
{
    if i + 1 < e.len() {
        assert(e.drop_first()[i] == e[i + 1]);
        if e[i + 1].0@ != k {
            lemma_first_key_shift(e, k, i + 1);
        }
    }
}

proof fn lemma_lookup_rest<V>(e: Seq<(String, V)>, k: Seq<char>)
    requires
        e.len() > 0,
        sorted_keys(e),
    ensures
        k != e[0].0@ ==> entries_lookup(e, k) == entries_lookup(e.drop_first(), k),
        entries_lookup(e.drop_first(), e[0].0@) is None,
{
    let d = e.drop_first();
    lemma_first_key_shift(e, k, 0);
    lemma_first_key(d, e[0].0@, 0);
    let f = first_key(d, e[0].0@, 0);
    if f < d.len() {
        assert(d[f] == e[f + 1]);
        assert(key_lt(e[0].0@, e[f + 1].0@));
        lemma_key_lt_irreflexive(e[0].0@);
    }
    if k != e[0].0@ {
        lemma_first_key(d, k, 0);
        let m = first_key(d, k, 0);
        if m < d.len() {
            assert(e[m + 1] == d[m]);
        }
    }
}

proof fn lemma_key_found<V>(e: Seq<(String, V)>, k: Seq<char>)
    requires
        entries_lookup(e, k) is Some,
    ensures
        0 <= first_key(e, k, 0) < e.len(),
        e[first_key(e, k, 0)].0@ == k,
{
    lemma_first_key(e, k, 0);
}

/// Entries in ascending key order are fixed by what they map: two such
/// lists that select the same value for every key hold the same entries.
pub proof fn lemma_sorted_entries_determined<V>(a: Seq<(String, V)>, b: Seq<(String, V)>)
    requires
        sorted_keys(a),
        sorted_keys(b),
        forall|k: Seq<char>| entries_lookup(a, k) == entries_lookup(b, k),
    ensures
        entry_views(a) == entry_views(b),
    decreases a.len() + b.len(),
{
    if a.len() == 0 || b.len() == 0 {
        if a.len() > 0 {
            assert(entries_lookup(a, a[0].0@) is Some);
            assert(entries_lookup(b, a[0].0@) is None);
        }
        if b.len() > 0 {
            assert(entries_lookup(b, b[0].0@) is Some);
            assert(entries_lookup(a, b[0].0@) is None);
        }
        assert(entry_views(a) =~= entry_views(b));
    } else {
        let k1 = a[0].0@;
        let k2 = b[0].0@;
        assert(first_key(a, k1, 0) == 0);
        assert(first_key(b, k2, 0) == 0);
        if k1 != k2 {
            lemma_key_found(b, k1);
            lemma_key_found(a, k2);
            let j2 = first_key(b, k1, 0);
            let j1 = first_key(a, k2, 0);
            assert(j2 > 0 && j1 > 0);
            assert(key_lt(b[0].0@, b[j2].0@));
            assert(key_lt(a[0].0@, a[j1].0@));
            lemma_key_lt_transitive(k1, k2, k1);
            lemma_key_lt_irreflexive(k1);
        }
        assert(entries_lookup(a, k1) == Some(a[0].1));
        assert(entries_lookup(b, k1) == Some(b[0].1));
        let ra = a.drop_first();
        let rb = b.drop_first();
        assert(sorted_keys(ra)) by {
            assert forall|i: int, j: int| 0 <= i < j < ra.len() implies key_lt(#[trigger] ra[i].0@, #[trigger] ra[j].0@) by {
                assert(ra[i] == a[i + 1] && ra[j] == a[j + 1]);
            }
        }
        assert(sorted_keys(rb)) by {
            assert forall|i: int, j: int| 0 <= i < j < rb.len() implies key_lt(#[trigger] rb[i].0@, #[trigger] rb[j].0@) by {
                assert(rb[i] == b[i + 1] && rb[j] == b[j + 1]);
            }
        }
        assert forall|k: Seq<char>| entries_lookup(ra, k) == entries_lookup(rb, k) by {
            lemma_lookup_rest(a, k);
            lemma_lookup_rest(b, k);
        }
        lemma_sorted_entries_determined(ra, rb);
        assert(entry_views(a) =~= seq![(k1, a[0].1)] + entry_views(ra));
        assert(entry_views(b) =~= seq![(k2, b[0].1)] + entry_views(rb));
    }
}

impl<V> TextMap<V> {
    pub closed spec fn entries(self) -> Seq<(String, V)> {
        self.entries@
    }

    /// The value a key selects.
    pub open spec fn lookup(self, k: Seq<char>) -> Option<V> {
        entries_lookup(self.entries(), k)
    }

    pub fn new() -> (m: Self)
        ensures
            forall|k: Seq<char>| m.lookup(k) is None,
            sorted_keys(m.entries()),
    {
        TextMap { entries: Vec::new() }
    }

    pub fn len(&self) -> (n: usize)
        ensures
            n == self.entries().len(),
    {
        self.entries.len()
    }

    pub fn get(&self, key: &str) -> (r: Option<&V>)
        ensures
            match self.lookup(key@) {
                Some(v) => r matches Some(x) && *x == v,
                None => r is None,
            },
    {
        let mut i: usize = 0;
        while i < self.entries.len()
            invariant
                i <= self.entries@.len(),
                forall|j: int| 0 <= j < i ==> #[trigger] self.entries@[j].0@ != key@,
            decreases self.entries@.len() - i,
        {
            if crate::text::str_eq(self.entries[i].0.as_str(), key) {
                proof {
                    lemma_first_key(self.entries@, key@, 0);
                    if first_key(self.entries@, key@, 0) < i {
                        assert(self.entries@[first_key(self.entries@, key@, 0)].0@ != key@);
                    }
                }
                return Some(&self.entries[i].1);
            }
            i = i + 1;
        }
        proof {
            lemma_first_key(self.entries@, key@, 0);
            if first_key(self.entries@, key@, 0) < self.entries@.len() {
                assert(self.entries@[first_key(self.entries@, key@, 0)].0@ == key@);
            }
        }
        None
    }

    /// The keys, in ascending order.
    pub fn keys(&self) -> (r: Vec<String>)
        ensures
            r@.len() == self.entries().len(),
            forall|i: int| 0 <= i < r@.len() ==> #[trigger] r@[i]@ == self.entries()[i].0@,
    {
        let mut r: Vec<String> = Vec::new();
        let mut i: usize = 0;
        while i < self.entries.len()
            invariant
                i <= self.entries@.len(),
                r@.len() == i,
                forall|j: int| 0 <= j < i ==> #[trigger] r@[j]@ == self.entries@[j].0@,
            decreases self.entries@.len() - i,
        {
            r.push(crate::text::owned(self.entries[i].0.as_str()));
            i = i + 1;
        }
        r
    }

    pub fn contains_key(&self, key: &str) -> (b: bool)
        ensures
            b == self.lookup(key@) is Some,
    {
        self.get(key).is_some()
    }

    pub fn insert(&mut self, key: String, value: V)
        ensures
            final(self).lookup(key@) == Some(value),
            forall|k: Seq<char>| k != key@ ==> final(self).lookup(k) == old(self).lookup(k),
            sorted_keys(old(self).entries()) ==> sorted_keys(final(self).entries()),
    {
        let ghost k0 = key@;
        let ghost before = self.entries@;
        let mut v: Vec<(String, V)> = Vec::new();
        std::mem::swap(&mut v, &mut self.entries);
        let mut i: usize = 0;
        while i < v.len() && key_less(v[i].0.as_str(), key.as_str())
            invariant
                v@ == before,
                key@ == k0,
                i <= v@.len(),
                forall|j: int| 0 <= j < i ==> key_lt(#[trigger] v@[j].0@, k0),
            decreases v@.len() - i,
        {
            i = i + 1;
        }
        proof {
            assert forall|j: int| 0 <= j < i implies #[trigger] before[j].0@ != k0 by {
                lemma_key_lt_irreflexive(k0);
            }
        }
        if i < v.len() && crate::text::str_eq(v[i].0.as_str(), key.as_str()) {
            v.set(i, (key, value));
            proof {
                let after = v@;
                assert forall|j: int| 0 <= j < before.len() implies #[trigger] after[j].0@
                    == before[j].0@ by {
                    if j == i {
                        assert(after[j].0@ == k0);
                    }
                }
                if sorted_keys(before) {
                    assert forall|p: int, q: int| 0 <= p < q < after.len() implies key_lt(
                        #[trigger] after[p].0@,
                        #[trigger] after[q].0@,
                    ) by {
                        assert(key_lt(before[p].0@, before[q].0@));
                    }
                }
                lemma_first_key(before, k0, 0);
                lemma_first_key_agree(before, after, k0);
                assert(first_key(before, k0, 0) == i);
                assert forall|k: Seq<char>| k != k0 implies #[trigger] first_key(after, k, 0) == first_key(before, k, 0)
                    && (first_key(before, k, 0) < before.len() ==> after[first_key(before, k, 0)] == before[first_key(before, k, 0)]) by {
                    lemma_first_key_agree(before, after, k);
                    lemma_first_key(before, k, 0);
                    let m = first_key(before, k, 0);
                    if m == i {
                        assert(before[m].0@ == k0);
                    }
                }
            }
            self.entries = v;
        } else {
            proof {
                if i < before.len() {
                    assert(!key_lt(before[i as int].0@, k0));
                    assert(before[i as int].0@ != k0);
                    lemma_key_lt_total(before[i as int].0@, k0);
                }
            }
            let ghost x = (key, value);
            v.insert(i, (key, value));
            proof {
                let after = v@;
                assert(after == before.insert(i as int, x));
                assert(x.0@ == k0);
                before.insert_ensures(i as int, x);
                if sorted_keys(before) {
                    assert forall|p: int, q: int| 0 <= p < q < after.len() implies key_lt(
                        #[trigger] after[p].0@,
                        #[trigger] after[q].0@,
                    ) by {
                        if q < i {
                            assert(key_lt(before[p].0@, before[q].0@));
                        } else if q == i {
                            assert(after[p] == before[p]);
                        } else if p == i {
                            assert(after[q] == before[q - 1]);
                            if q - 1 > i {
                                assert(key_lt(before[i as int].0@, before[q - 1].0@));
                                lemma_key_lt_transitive(k0, before[i as int].0@, before[q - 1].0@);
                            }
                        } else if p < i {
                            assert(after[q] == before[q - 1]);
                            assert(key_lt(before[p].0@, k0));
                            if q - 1 == i as int {
                            } else {
                                assert(key_lt(before[i as int].0@, before[q - 1].0@));
                                lemma_key_lt_transitive(k0, before[i as int].0@, before[q - 1].0@);
                            }
                            lemma_key_lt_transitive(before[p].0@, k0, before[q - 1].0@);
                        } else {
                            assert(after[p] == before[p - 1]);
                            assert(after[q] == before[q - 1]);
                            assert(key_lt(before[p - 1].0@, before[q - 1].0@));
                        }
                    }
                }
                lemma_first_key(after, k0, 0);
                assert forall|j: int| 0 <= j < i implies #[trigger] after[j].0@ != k0 by {
                    assert(after[j] == before[j]);
                }
                if first_key(after, k0, 0) < i {
                    assert(after[first_key(after, k0, 0)].0@ == k0);
                }
                assert(first_key(after, k0, 0) == i);
                assert forall|k: Seq<char>| k != k0 implies (#[trigger] first_key(after, k, 0) < after.len()) == (
                first_key(before, k, 0) < before.len()) && (first_key(before, k, 0) < before.len() ==> after[first_key(
                    after,
                    k,
                    0,
                )] == before[first_key(before, k, 0)]) by {
                    lemma_lookup_after_insert(before, i as int, x, k);
                }
            }
            self.entries = v;
        }
    }
}

} // verus!
