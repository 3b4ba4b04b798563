//! An ordered map of query parameters: keys unique and kept in ascending
//! byte-wise order, as the canonical signee requires.

use crate::text::{key_lt, lemma_key_lt_irreflexive, lemma_key_lt_total, lemma_key_lt_transitive, str_eq, str_lt};
use vstd::prelude::*;

verus! {

/// A key and its value, as character sequences.
pub type Entry = (Seq<char>, Seq<char>);

/// Every key comes strictly before the keys that follow it.
pub open spec fn sorted_keys(s: Seq<Entry>) -> bool {
    forall|i: int, j: int| 0 <= i < j < s.len() ==> key_lt(s[i].0, s[j].0)
}

/// The entries after setting `k` to `v`: an equal key has its value replaced,
/// otherwise the entry goes before the first greater key.
pub open spec fn insert_entry(s: Seq<Entry>, k: Seq<char>, v: Seq<char>) -> Seq<Entry>
    decreases s.len(),
{
    if s.len() == 0 {
        seq![(k, v)]
    } else if s[0].0 == k {
        seq![(k, v)] + s.drop_first()
    } else if key_lt(k, s[0].0) {
        seq![(k, v)] + s
    } else {
        seq![s[0]] + insert_entry(s.drop_first(), k, v)
    }
}

/// The entries of a map filled by inserting `pairs` in order: a later pair
/// overrides an earlier one with the same key.
pub open spec fn entries_of_pairs(pairs: Seq<Entry>) -> Seq<Entry>
    decreases pairs.len(),
{
    if pairs.len() == 0 {
        Seq::empty()
    } else {
        let rest = entries_of_pairs(pairs.drop_last());
        insert_entry(rest, pairs.last().0, pairs.last().1)
    }
}

/// The value stored under `k`, if any.
pub open spec fn lookup(s: Seq<Entry>, k: Seq<char>) -> Option<Seq<char>>
    decreases s.len(),
{
    if s.len() == 0 {
        None
    } else if s[0].0 == k {
        Some(s[0].1)
    } else {
        lookup(s.drop_first(), k)
    }
}

pub proof fn lemma_key_lt_asymmetric(a: Seq<char>, b: Seq<char>)
    requires
        key_lt(a, b),
    ensures
        !key_lt(b, a),
        a != b,
{
    lemma_key_lt_irreflexive(a);
    if key_lt(b, a) {
        lemma_key_lt_transitive(a, b, a);
    }
}

/// Where `k` lands: after the keys `s[..j]`, all smaller, and at or before `s[j]`.
pub proof fn lemma_insert_at(s: Seq<Entry>, k: Seq<char>, v: Seq<char>, j: int)
    requires
        0 <= j <= s.len(),
        forall|i: int| 0 <= i < j ==> key_lt(#[trigger] s[i].0, k),
        j < s.len() ==> s[j].0 == k || key_lt(k, s[j].0),
    ensures
        j < s.len() && s[j].0 == k ==> insert_entry(s, k, v) == s.subrange(0, j) + seq![(k, v)]
            + s.subrange(j + 1, s.len() as int),
        !(j < s.len() && s[j].0 == k) ==> insert_entry(s, k, v) == s.subrange(0, j) + seq![(k, v)]
            + s.subrange(j, s.len() as int),
    decreases j,
{
    if j == 0 {
        assert(s.subrange(0, 0) + seq![(k, v)] + s.subrange(1, s.len() as int) =~= seq![(k, v)]
            + s.drop_first());
        assert(s.subrange(0, 0) + seq![(k, v)] + s.subrange(0, s.len() as int) =~= seq![(k, v)]
            + s);
        if s.len() == 0 {
            assert(s.subrange(0, 0) + seq![(k, v)] + s.subrange(0, 0) =~= seq![(k, v)]);
        }
    } else {
        let t = s.drop_first();
        assert(key_lt(s[0].0, k));
        lemma_key_lt_asymmetric(s[0].0, k);
        assert forall|i: int| 0 <= i < j - 1 implies key_lt(#[trigger] t[i].0, k) by {
            assert(t[i] == s[i + 1]);
        }
        lemma_insert_at(t, k, v, j - 1);
        if j < s.len() && s[j].0 == k {
            assert(s.subrange(0, j) + seq![(k, v)] + s.subrange(j + 1, s.len() as int) =~= seq![s[0]]
                + (t.subrange(0, j - 1) + seq![(k, v)] + t.subrange(j, t.len() as int)));
        } else {
            assert(s.subrange(0, j) + seq![(k, v)] + s.subrange(j, s.len() as int) =~= seq![s[0]]
                + (t.subrange(0, j - 1) + seq![(k, v)] + t.subrange(j - 1, t.len() as int)));
        }
    }
}

/// Inserting into sorted entries keeps them sorted.
pub proof fn lemma_insert_sorted(s: Seq<Entry>, k: Seq<char>, v: Seq<char>)
    requires
        sorted_keys(s),
    ensures
        sorted_keys(insert_entry(s, k, v)),
    decreases s.len(),
{
    if s.len() > 0 && s[0].0 != k && !key_lt(k, s[0].0) {
        let t = s.drop_first();
        lemma_key_lt_total(k, s[0].0);
        lemma_insert_sorted(t, k, v);
        let r = insert_entry(t, k, v);
        let out = seq![s[0]] + r;
        // every key of r is either k or a key of t: all greater than s[0].0
        assert forall|j: int| 0 <= j < r.len() implies key_lt(s[0].0, #[trigger] r[j].0) by {
            lemma_insert_keys(t, k, v, j);
            if r[j].0 != k {
                let m = choose|m: int| 0 <= m < t.len() && t[m].0 == r[j].0;
                assert(t[m] == s[m + 1]);
            }
        }
        assert forall|i: int, j: int| 0 <= i < j < out.len() implies key_lt(out[i].0, out[j].0) by {
            if i == 0 {
                assert(out[j] == r[j - 1]);
            } else {
                assert(out[i] == r[i - 1] && out[j] == r[j - 1]);
            }
        }
    } else if s.len() > 0 && s[0].0 == k {
        let out = seq![(k, v)] + s.drop_first();
        assert forall|i: int, j: int| 0 <= i < j < out.len() implies key_lt(out[i].0, out[j].0) by {
            assert(out[j] == s[j]);
            if i > 0 {
                assert(out[i] == s[i]);
            }
        }
    } else if s.len() > 0 {
        let out = seq![(k, v)] + s;
        assert forall|i: int, j: int| 0 <= i < j < out.len() implies key_lt(out[i].0, out[j].0) by {
            assert(out[j] == s[j - 1]);
            if i > 0 {
                assert(out[i] == s[i - 1]);
            } else if j > 1 {
                lemma_key_lt_transitive(k, s[0].0, s[j - 1].0);
            }
        }
    }
}

/// Each key after an insertion is `k` or a key that was there before.
pub proof fn lemma_insert_keys(s: Seq<Entry>, k: Seq<char>, v: Seq<char>, j: int)
    requires
        0 <= j < insert_entry(s, k, v).len(),
    ensures
        insert_entry(s, k, v)[j].0 == k || exists|m: int|
            0 <= m < s.len() && s[m].0 == #[trigger] insert_entry(s, k, v)[j].0,
    decreases s.len(),
{
    let r = insert_entry(s, k, v);
    if s.len() == 0 {
    } else if s[0].0 == k {
        if j > 0 {
            assert(r[j] == s[j]);
        }
    } else if key_lt(k, s[0].0) {
        if j > 0 {
            assert(r[j] == s[j - 1]);
        }
    } else {
        if j == 0 {
            assert(r[0] == s[0]);
        } else {
            let t = s.drop_first();
            assert(r[j] == insert_entry(t, k, v)[j - 1]);
            lemma_insert_keys(t, k, v, j - 1);
            if insert_entry(t, k, v)[j - 1].0 != k {
                let m = choose|m: int| 0 <= m < t.len() && t[m].0 == insert_entry(t, k, v)[j - 1].0;
                assert(s[m + 1] == t[m]);
            }
        }
    }
}

/// A key that is found is the key of some entry, with that entry's value.
pub proof fn lemma_lookup_found(s: Seq<Entry>, k: Seq<char>)
    ensures
        lookup(s, k) is Some ==> exists|i: int| 0 <= i < s.len() && #[trigger] s[i].0 == k && lookup(s, k) == Some(s[i].1),
        lookup(s, k) is None ==> forall|i: int| 0 <= i < s.len() ==> #[trigger] s[i].0 != k,
    decreases s.len(),
{
    if s.len() > 0 && s[0].0 != k {
        let t = s.drop_first();
        lemma_lookup_found(t, k);
        if lookup(t, k) is Some {
            let i = choose|i: int| 0 <= i < t.len() && #[trigger] t[i].0 == k && lookup(t, k) == Some(t[i].1);
            assert(s[i + 1] == t[i]);
        } else {
            assert forall|i: int| 0 <= i < s.len() implies #[trigger] s[i].0 != k by {
                if i > 0 {
                    assert(s[i] == t[i - 1]);
                }
            }
        }
    }
}

/// In sorted entries, the key of an entry finds that entry's value.
pub proof fn lemma_lookup_sorted(s: Seq<Entry>, i: int)
    requires
        sorted_keys(s),
        0 <= i < s.len(),
    ensures
        lookup(s, s[i].0) == Some(s[i].1),
    decreases i,
{
    if i > 0 {
        let t = s.drop_first();
        lemma_key_lt_asymmetric(s[0].0, s[i].0);
        assert(t[i - 1] == s[i]);
        lemma_lookup_sorted(t, i - 1);
    }
}

/// Two sorted entry sequences that hold the same value under every key are
/// the same sequence: the ordered form of a map is unique.
pub proof fn lemma_sorted_unique(a: Seq<Entry>, b: Seq<Entry>)
    requires
        sorted_keys(a),
        sorted_keys(b),
        forall|k: Seq<char>| lookup(a, k) == lookup(b, k),
    ensures
        a == b,
    decreases a.len() + b.len(),
{
    if a.len() == 0 && b.len() == 0 {
        assert(a =~= b);
    } else if a.len() == 0 {
        lemma_lookup_sorted(b, 0);
        assert(lookup(a, b[0].0) is None);
    } else if b.len() == 0 {
        lemma_lookup_sorted(a, 0);
        assert(lookup(b, a[0].0) is None);
    } else {
        lemma_lookup_sorted(a, 0);
        lemma_lookup_sorted(b, 0);
        assert(lookup(b, a[0].0) == Some(a[0].1));
        assert(lookup(a, b[0].0) == Some(b[0].1));
        lemma_lookup_found(b, a[0].0);
        lemma_lookup_found(a, b[0].0);
        if a[0].0 != b[0].0 {
            let j = choose|j: int| 0 <= j < b.len() && #[trigger] b[j].0 == a[0].0 && lookup(b, a[0].0) == Some(b[j].1);
            let i = choose|i: int| 0 <= i < a.len() && #[trigger] a[i].0 == b[0].0 && lookup(a, b[0].0) == Some(a[i].1);
            assert(j != 0 && i != 0);
            assert(key_lt(b[0].0, a[0].0));
            assert(key_lt(a[0].0, b[0].0));
            lemma_key_lt_asymmetric(a[0].0, b[0].0);
        }
        assert(a[0] == b[0]);
        let ta = a.drop_first();
        let tb = b.drop_first();
        assert forall|k: Seq<char>| lookup(ta, k) == lookup(tb, k) by {
            if k == a[0].0 {
                lemma_lookup_found(ta, k);
                lemma_lookup_found(tb, k);
                if lookup(ta, k) is Some {
                    let i = choose|i: int| 0 <= i < ta.len() && #[trigger] ta[i].0 == k && lookup(ta, k) == Some(ta[i].1);
                    assert(ta[i] == a[i + 1]);
                    lemma_key_lt_irreflexive(k);
                }
                if lookup(tb, k) is Some {
                    let i = choose|i: int| 0 <= i < tb.len() && #[trigger] tb[i].0 == k && lookup(tb, k) == Some(tb[i].1);
                    assert(tb[i] == b[i + 1]);
                    lemma_key_lt_irreflexive(k);
                }
            } else {
                assert(lookup(a, k) == lookup(ta, k));
                assert(lookup(b, k) == lookup(tb, k));
            }
        }
        lemma_sorted_unique(ta, tb);
        assert(a =~= seq![a[0]] + ta);
        assert(b =~= seq![b[0]] + tb);
    }
}

/// After an insertion, `k` finds `v` and every other key finds what it did.
pub proof fn lemma_lookup_insert(s: Seq<Entry>, k: Seq<char>, v: Seq<char>, q: Seq<char>)
    ensures
        lookup(insert_entry(s, k, v), q) == if q == k {
            Some(v)
        } else {
            lookup(s, q)
        },
    decreases s.len(),
{
    let r = insert_entry(s, k, v);
    if s.len() == 0 {
        assert(r =~= seq![(k, v)]);
        assert(r.drop_first() =~= Seq::<Entry>::empty());
        assert(lookup(r.drop_first(), q) is None);
        assert(lookup(s, q) is None);
        assert(lookup(r, q) == if q == k { Some(v) } else { lookup(s, q) });
    } else if s[0].0 == k {
        assert(r =~= seq![(k, v)] + s.drop_first());
        assert(r[0] == (k, v));
        assert(r.drop_first() =~= s.drop_first());
        assert(lookup(r, q) == if q == k { Some(v) } else { lookup(s, q) });
    } else if key_lt(k, s[0].0) {
        assert(r =~= seq![(k, v)] + s);
        assert(r[0] == (k, v));
        assert(r.drop_first() =~= s);
        assert(lookup(r, q) == if q == k { Some(v) } else { lookup(s, q) });
    } else {
        lemma_lookup_insert(s.drop_first(), k, v, q);
        assert(r =~= seq![s[0]] + insert_entry(s.drop_first(), k, v));
        assert(r[0] == s[0]);
        assert(r.drop_first() =~= insert_entry(s.drop_first(), k, v));
        assert(lookup(r, q) == if q == k { Some(v) } else { lookup(s, q) });
    }
}

/// The entries filled from pairs are sorted, and each key finds the value of
/// the last pair that has it.
pub proof fn lemma_entries_of_pairs(pairs: Seq<Entry>)
    ensures
        sorted_keys(entries_of_pairs(pairs)),
        forall|q: Seq<char>| #[trigger] lookup(entries_of_pairs(pairs), q) == last_value(pairs, q),
    decreases pairs.len(),
{
    if pairs.len() > 0 {
        let rest = pairs.drop_last();
        lemma_entries_of_pairs(rest);
        lemma_insert_sorted(entries_of_pairs(rest), pairs.last().0, pairs.last().1);
        assert forall|q: Seq<char>| #[trigger] lookup(entries_of_pairs(pairs), q) == last_value(pairs, q) by {
            lemma_lookup_insert(entries_of_pairs(rest), pairs.last().0, pairs.last().1, q);
        }
    }
}

/// The value of the last pair with key `q`, if any.
pub open spec fn last_value(pairs: Seq<Entry>, q: Seq<char>) -> Option<Seq<char>>
    decreases pairs.len(),
{
    if pairs.len() == 0 {
        None
    } else if pairs.last().0 == q {
        Some(pairs.last().1)
    } else {
        last_value(pairs.drop_last(), q)
    }
}

/// Query parameters with unique keys in ascending byte-wise order.
pub struct QueryMap {
    entries: Vec<(String, String)>,
}

impl View for QueryMap {
    type V = Seq<Entry>;

    closed spec fn view(&self) -> Seq<Entry> {
        self.entries@.map_values(|e: (String, String)| (e.0@, e.1@))
    }
}

impl QueryMap {
    #[verifier::type_invariant]
    spec fn inv(&self) -> bool {
        sorted_keys(self@)
    }

    /// An empty map.
    pub fn new() -> (r: QueryMap)
        ensures
            r@ == Seq::<Entry>::empty(),
    {
        let r = QueryMap { entries: Vec::new() };
        assert(r@ =~= Seq::<Entry>::empty());
        r
    }

    /// The number of entries.
    pub fn len(&self) -> (r: usize)
        ensures
            r == self@.len(),
    {
        self.entries.len()
    }

    /// The key of the entry at position `i`.
    pub fn key_at(&self, i: usize) -> (r: &str)
        requires
            i < self@.len(),
        ensures
            r@ == self@[i as int].0,
    {
        self.entries[i].0.as_str()
    }

    /// The value of the entry at position `i`.
    pub fn value_at(&self, i: usize) -> (r: &str)
        requires
            i < self@.len(),
        ensures
            r@ == self@[i as int].1,
    {
        self.entries[i].1.as_str()
    }

    /// Sets `key` to `value`, replacing the value of an equal key.
    pub fn insert(&mut self, key: &str, value: &str)
        ensures
            final(self)@ == insert_entry(old(self)@, key@, value@),
    {
        proof {
            use_type_invariant(&*self);
        }
        let ghost s = self@;
        let n = self.entries.len();
        let mut j: usize = 0;
        let mut found = false;
        while j < n
            invariant_except_break
                !found,
            invariant
                n == s.len(),
                s == self@,
                j <= n,
                forall|i: int| 0 <= i < j ==> key_lt(#[trigger] s[i].0, key@),
            ensures
                j <= n,
                forall|i: int| 0 <= i < j ==> key_lt(#[trigger] s[i].0, key@),
                found ==> j < n && s[j as int].0 == key@,
                !found ==> j == n || key_lt(key@, s[j as int].0),
            decreases n - j,
        {
            let k = self.entries[j].0.as_str();
            assert(k@ == s[j as int].0);
            if str_eq(k, key) {
                found = true;
                break;
            }
            if str_lt(key, k) {
                break;
            }
            proof {
                lemma_key_lt_total(key@, k@);
            }
            j = j + 1;
        }
        proof {
            lemma_key_lt_irreflexive(key@);
            lemma_insert_at(s, key@, value@, j as int);
            lemma_insert_sorted(s, key@, value@);
        }
        let entry = (String::from_str(key), String::from_str(value));
        let mut taken = QueryMap::new();
        std::mem::swap(self, &mut taken);
        let QueryMap { mut entries } = taken;
        let ghost e0 = entries@;
        assert(e0.map_values(|e: (String, String)| (e.0@, e.1@)) == s);
        if found {
            entries.remove(j);
        }
        entries.insert(j, entry);
        proof {
            let m = entries@.map_values(|e: (String, String)| (e.0@, e.1@));
            if found {
                assert(m =~= s.subrange(0, j as int) + seq![(key@, value@)] + s.subrange(j + 1, n as int));
            } else {
                assert(m =~= s.subrange(0, j as int) + seq![(key@, value@)] + s.subrange(j as int, n as int));
            }
        }
        let r = QueryMap { entries };
        assert(r@ == insert_entry(s, key@, value@));
        *self = r;
    }

    /// The map filled from `pairs` in order; a later pair overrides an
    /// earlier one with the same key.
    pub fn from_pairs(pairs: &Vec<(String, String)>) -> (r: QueryMap)
        ensures
            r@ == entries_of_pairs(pairs@.map_values(|e: (String, String)| (e.0@, e.1@))),
    {
        let ghost ps = pairs@.map_values(|e: (String, String)| (e.0@, e.1@));
        let mut r = QueryMap::new();
        let mut i: usize = 0;
        while i < pairs.len()
            invariant
                i <= pairs@.len(),
                ps == pairs@.map_values(|e: (String, String)| (e.0@, e.1@)),
                r@ == entries_of_pairs(ps.subrange(0, i as int)),
            decreases pairs@.len() - i,
        {
            r.insert(pairs[i].0.as_str(), pairs[i].1.as_str());
            assert(ps.subrange(0, i + 1).drop_last() =~= ps.subrange(0, i as int));
            i = i + 1;
        }
        assert(ps.subrange(0, pairs@.len() as int) =~= ps);
        r
    }
}

} // verus!
