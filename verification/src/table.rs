//! A small map from strings to records, kept as a list without repeated keys.
//!
//! The list keeps the order in which keys first came in, so walking it is
//! the same on every run; its meaning is the map from keys to records.

use vstd::prelude::*;
use vstd::set::fold::{is_fun_commutative, lemma_fold_empty, lemma_fold_insert};
use crate::text::same_text;

verus! {

/// No key occurs twice in the list.
pub open spec fn distinct_keys<V>(s: Seq<(String, V)>) -> bool {
    forall|i: int, j: int| 0 <= i < j < s.len() ==> s[i].0@ != s[j].0@
}

/// The map that a list of entries stands for.
pub open spec fn entries_map<V: View>(s: Seq<(String, V)>) -> Map<Seq<char>, V::V>
    decreases s.len(),
{
    if s.len() == 0 {
        Map::empty()
    } else {
        entries_map(s.drop_last()).insert(s.last().0@, s.last().1@)
    }
}

/// The keys of the map are the keys of the list, and the map is finite.
pub proof fn lemma_entries_keys<V: View>(s: Seq<(String, V)>)
    ensures
        entries_map(s).dom().finite(),
        forall|k: Seq<char>|
            entries_map(s).contains_key(k) <==> exists|i: int|
                0 <= i < s.len() && #[trigger] s[i].0@ == k,
    decreases s.len(),
{
    if s.len() > 0 {
        let t = s.drop_last();
        lemma_entries_keys(t);
        assert forall|k: Seq<char>|
            entries_map(s).contains_key(k) <==> exists|i: int|
                0 <= i < s.len() && #[trigger] s[i].0@ == k by {
            if entries_map(s).contains_key(k) {
                if k == s.last().0@ {
                    assert(s[s.len() - 1].0@ == k);
                } else {
                    let i = choose|i: int| 0 <= i < t.len() && #[trigger] t[i].0@ == k;
                    assert(s[i].0@ == k);
                }
            }
            if exists|i: int| 0 <= i < s.len() && #[trigger] s[i].0@ == k {
                let i = choose|i: int| 0 <= i < s.len() && #[trigger] s[i].0@ == k;
                if i < s.len() - 1 {
                    assert(t[i].0@ == k);
                }
            }
        }
    }
}

/// Where no key repeats, each entry of the list is an entry of the map, and
/// the map has as many entries as the list.
pub proof fn lemma_entries_values<V: View>(s: Seq<(String, V)>)
    requires
        distinct_keys(s),
    ensures
        forall|i: int| 0 <= i < s.len() ==> entries_map(s)[#[trigger] s[i].0@] == s[i].1@,
        entries_map(s).len() == s.len(),
    decreases s.len(),
{
    lemma_entries_keys(s);
    if s.len() > 0 {
        let t = s.drop_last();
        lemma_entries_values(t);
        lemma_entries_keys(t);
        assert forall|i: int| 0 <= i < s.len() implies entries_map(s)[#[trigger] s[i].0@]
            == s[i].1@ by {
            if i < s.len() - 1 {
                assert(t[i] == s[i]);
                assert(s[i].0@ != s[s.len() - 1].0@);
            }
        }
        assert(!entries_map(t).contains_key(s.last().0@)) by {
            if entries_map(t).contains_key(s.last().0@) {
                let i = choose|i: int| 0 <= i < t.len() && #[trigger] t[i].0@ == s.last().0@;
                assert(s[i].0@ == s[s.len() - 1].0@);
            }
        }
    }
}

/// Replacing the record of a key that the list holds is an insertion into the map.
pub proof fn lemma_entries_update<V: View>(s: Seq<(String, V)>, i: int, e: (String, V))
    requires
        distinct_keys(s),
        0 <= i < s.len(),
        s[i].0@ == e.0@,
    ensures
        distinct_keys(s.update(i, e)),
        entries_map(s.update(i, e)) == entries_map(s).insert(e.0@, e.1@),
{
    let u = s.update(i, e);
    assert(distinct_keys(u)) by {
        assert forall|a: int, b: int| 0 <= a < b < u.len() implies u[a].0@ != u[b].0@ by {
            assert(s[a].0@ != s[b].0@);
        }
    }
    lemma_entries_keys(s);
    lemma_entries_keys(u);
    lemma_entries_values(s);
    lemma_entries_values(u);
    let m = entries_map(s).insert(e.0@, e.1@);
    assert forall|k: Seq<char>| entries_map(u).contains_key(k) <==> m.contains_key(k) by {
        if entries_map(u).contains_key(k) {
            let j = choose|j: int| 0 <= j < u.len() && #[trigger] u[j].0@ == k;
            assert(s[j].0@ == k);
        }
        if m.contains_key(k) && k != e.0@ {
            let j = choose|j: int| 0 <= j < s.len() && #[trigger] s[j].0@ == k;
            assert(u[j].0@ == k);
        }
        if k == e.0@ {
            assert(u[i].0@ == k);
        }
    }
    assert forall|k: Seq<char>| entries_map(u).contains_key(k) implies entries_map(u)[k]
        == m[k] by {
        let j = choose|j: int| 0 <= j < u.len() && #[trigger] u[j].0@ == k;
        if j != i {
            assert(s[j].0@ == k);
            assert(s[j].0@ != s[i].0@);
        }
    }
    assert(entries_map(u) =~= m);
}

/// Two lists with the same keys and the same record values, place by place,
/// stand for the same map, and keys repeat in both or in neither.
pub proof fn lemma_entries_same<V: View>(a: Seq<(String, V)>, b: Seq<(String, V)>)
    requires
        a.len() == b.len(),
        forall|j: int| 0 <= j < a.len() ==> (#[trigger] a[j]).0@ == b[j].0@ && a[j].1@ == b[j].1@,
    ensures
        entries_map(a) == entries_map(b),
        distinct_keys(b) ==> distinct_keys(a),
    decreases a.len(),
{
    if a.len() > 0 {
        assert(a[a.len() - 1].0@ == b[a.len() - 1].0@);
        let x = a.drop_last();
        let y = b.drop_last();
        assert forall|j: int| 0 <= j < x.len() implies (#[trigger] x[j]).0@ == y[j].0@ && x[j].1@
            == y[j].1@ by {
            assert(a[j].0@ == b[j].0@);
        }
        lemma_entries_same(x, y);
    }
    if distinct_keys(b) {
        assert forall|i: int, j: int| 0 <= i < j < a.len() implies a[i].0@ != a[j].0@ by {
            assert(a[i].0@ == b[i].0@);
            assert(a[j].0@ == b[j].0@);
        }
    }
}

/// Adding an entry at the end of the list is an insertion into the map.
pub proof fn lemma_entries_push<V: View>(s: Seq<(String, V)>, e: (String, V))
    ensures
        entries_map(s.push(e)) == entries_map(s).insert(e.0@, e.1@),
        distinct_keys(s) && !entries_map(s).contains_key(e.0@) ==> distinct_keys(s.push(e)),
{
    assert(s.push(e).drop_last() =~= s);
    lemma_entries_keys(s);
    if distinct_keys(s) && !entries_map(s).contains_key(e.0@) {
        let u = s.push(e);
        assert forall|a: int, b: int| 0 <= a < b < u.len() implies u[a].0@ != u[b].0@ by {
            if b == s.len() {
                assert(s[a].0@ == u[a].0@);
            } else {
                assert(s[a].0@ != s[b].0@);
            }
        }
    }
}

/// What a table asks of its records: a digest that depends on the key and
/// the record's value alone, and a copy of the same value.
pub trait Record: View + Sized {
    /// The digest of a record's value under a key.
    spec fn digest_of(key: Seq<char>, value: Self::V) -> u64;

    /// Computes the digest of the record under a key.
    fn digest(&self, key: &str) -> (r: u64)
        ensures
            r == Self::digest_of(key@, self@),
    ;

    /// A copy of the record.
    fn duplicate(&self) -> (r: Self)
        ensures
            r@ == self@,
    ;

    /// Whether two records have the same value.
    fn matches(&self, other: &Self) -> (r: bool)
        ensures
            r == (self@ == other@),
    ;
}

/// Folds one entry into the digest of a table.
pub open spec fn digest_step<V: Record>() -> spec_fn(u64, (Seq<char>, V::V)) -> u64 {
    |acc: u64, kv: (Seq<char>, V::V)| acc ^ V::digest_of(kv.0, kv.1)
}

/// The digest of a map of records: the exclusive or of the digests of its
/// entries, which no order of the entries can change.
pub open spec fn table_digest<V: Record>(m: Map<Seq<char>, V::V>) -> u64 {
    m.kv_pairs().fold(0u64, digest_step::<V>())
}

/// The digest of the empty map is zero.
pub proof fn lemma_digest_empty<V: Record>()
    ensures
        table_digest::<V>(Map::empty()) == 0,
        Map::<Seq<char>, V::V>::empty().kv_pairs().finite(),
{
    assert(Map::<Seq<char>, V::V>::empty().kv_pairs() =~= Set::empty());
    lemma_fold_empty(0u64, digest_step::<V>());
}

/// A new key adds the digest of its entry to the digest of the map.
pub proof fn lemma_digest_insert<V: Record>(m: Map<Seq<char>, V::V>, k: Seq<char>, v: V::V)
    requires
        m.kv_pairs().finite(),
        !m.contains_key(k),
    ensures
        m.insert(k, v).kv_pairs().finite(),
        table_digest::<V>(m.insert(k, v)) == table_digest::<V>(m) ^ V::digest_of(k, v),
{
    let f = digest_step::<V>();
    assert(m.insert(k, v).kv_pairs() =~= m.kv_pairs().insert((k, v)));
    assert(is_fun_commutative(f)) by {
        assert forall|a1: (Seq<char>, V::V), a2: (Seq<char>, V::V), b: u64| #[trigger]
            f(f(b, a2), a1) == f(f(b, a1), a2) by {
            let x = V::digest_of(a1.0, a1.1);
            let y = V::digest_of(a2.0, a2.1);
            assert((b ^ y) ^ x == (b ^ x) ^ y) by (bit_vector);
        }
    }
    lemma_fold_insert(m.kv_pairs(), 0u64, f, (k, v));
}

/// A map from strings to records of one kind.
#[derive(Debug)]
pub struct Table<V> {
    entries: Vec<(String, V)>,
}

impl<V: View> View for Table<V> {
    type V = Map<Seq<char>, V::V>;

    closed spec fn view(&self) -> Map<Seq<char>, V::V> {
        entries_map(self.entries@)
    }
}

impl<V> Table<V> {
    #[verifier::type_invariant]
    spec fn valid(self) -> bool {
        distinct_keys(self.entries@)
    }
}

impl<V: View> Table<V> {
    /// An empty table.
    pub fn new() -> (r: Self)
        ensures
            r@ == Map::<Seq<char>, V::V>::empty(),
            r.order() == Seq::<Seq<char>>::empty(),
    {
        let r = Table { entries: Vec::new() };
        assert(r.order() =~= Seq::<Seq<char>>::empty());
        r
    }

    /// The number of keys.
    pub fn len(&self) -> (r: usize)
        ensures
            r == self@.len(),
            self@.dom().finite(),
    {
        proof {
            use_type_invariant(self);
            lemma_entries_values(self.entries@);
            lemma_entries_keys(self.entries@);
        }
        self.entries.len()
    }

    /// The keys in the order in which they first came in.
    pub closed spec fn order(&self) -> Seq<Seq<char>> {
        self.entries@.map_values(|e: (String, V)| e.0@)
    }

    /// The entries in the order in which their keys first came in: each key
    /// of the map once, with its record.
    pub fn entries(&self) -> (r: &Vec<(String, V)>)
        ensures
            distinct_keys(r@),
            entries_map(r@) == self@,
            r@.len() == self.order().len(),
            forall|i: int| 0 <= i < r@.len() ==> (#[trigger] r@[i]).0@ == self.order()[i],
            forall|i: int|
                0 <= i < r@.len() ==> self@.contains_key((#[trigger] r@[i]).0@) && self@[r@[i].0@]
                    == r@[i].1@,
            forall|k: Seq<char>| self@.contains_key(k) <==> self.order().contains(k),
            self.order().no_duplicates(),
    {
        proof {
            use_type_invariant(self);
            lemma_entries_keys(self.entries@);
            lemma_entries_values(self.entries@);
            assert forall|k: Seq<char>| self@.contains_key(k) <==> self.order().contains(k) by {
                if self@.contains_key(k) {
                    let i = choose|i: int|
                        0 <= i < self.entries@.len() && #[trigger] self.entries@[i].0@ == k;
                    assert(self.order()[i] == k);
                }
                if self.order().contains(k) {
                    let i = choose|i: int| 0 <= i < self.order().len() && self.order()[i] == k;
                    assert(self.entries@[i].0@ == k);
                }
            }
            assert forall|i: int, j: int|
                0 <= i < self.order().len() && 0 <= j < self.order().len() && i != j implies self.order()[i]
                != self.order()[j] by {
                if i < j {
                    assert(self.entries@[i].0@ != self.entries@[j].0@);
                } else {
                    assert(self.entries@[j].0@ != self.entries@[i].0@);
                }
            }
        }
        &self.entries
    }

    fn position(&self, key: &str) -> (r: Option<usize>)
        ensures
            match r {
                Some(i) => i < self.entries@.len() && self.entries@[i as int].0@ == key@,
                None => !self@.contains_key(key@),
            },
    {
        let n = self.entries.len();
        let mut i: usize = 0;
        while i < n
            invariant
                n == self.entries@.len(),
                i <= n,
                forall|j: int| 0 <= j < i ==> self.entries@[j].0@ != key@,
            decreases n - i,
        {
            if same_text(self.entries[i].0.as_str(), key) {
                return Some(i);
            }
            i += 1;
        }
        proof {
            lemma_entries_keys(self.entries@);
        }
        None
    }

    /// Whether the table holds the key.
    pub fn contains_key(&self, key: &str) -> (r: bool)
        ensures
            r == self@.contains_key(key@),
    {
        proof {
            lemma_entries_keys(self.entries@);
        }
        self.position(key).is_some()
    }

    /// The record of a key, if the table holds the key.
    pub fn get(&self, key: &str) -> (r: Option<&V>)
        ensures
            match r {
                Some(v) => self@.contains_key(key@) && self@[key@] == v@,
                None => !self@.contains_key(key@),
            },
    {
        proof {
            use_type_invariant(self);
            lemma_entries_keys(self.entries@);
            lemma_entries_values(self.entries@);
        }
        match self.position(key) {
            Some(i) => Some(&self.entries[i].1),
            None => None,
        }
    }

    /// Puts a record under a key. A key that the table holds keeps its
    /// place and gets the new record; a new key goes to the end.
    pub fn insert(&mut self, key: String, value: V)
        ensures
            final(self)@ == old(self)@.insert(key@, value@),
            final(self).order() == if old(self)@.contains_key(key@) {
                old(self).order()
            } else {
                old(self).order().push(key@)
            },
    {
        proof {
            use_type_invariant(&*self);
            lemma_entries_keys(self.entries@);
        }
        let pos = self.position(key.as_str());
        let mut entries: Vec<(String, V)> = Vec::new();
        std::mem::swap(&mut entries, &mut self.entries);
        let ghost before = entries@;
        match pos {
            Some(i) => {
                proof {
                    lemma_entries_update(before, i as int, (key, value));
                }
                entries.set(i, (key, value));
            },
            None => {
                proof {
                    lemma_entries_push(before, (key, value));
                }
                entries.push((key, value));
            },
        }
        self.entries = entries;
        assert(self.order() =~= if old(self)@.contains_key(key@) {
            old(self).order()
        } else {
            old(self).order().push(key@)
        });
    }
}

impl<V: Record> Table<V> {
    /// The digest of the table. Two tables that hold the same map have the
    /// same digest, in whatever order their keys came in.
    pub fn digest(&self) -> (r: u64)
        ensures
            r == table_digest::<V>(self@),
    {
        proof {
            use_type_invariant(self);
            lemma_digest_empty::<V>();
        }
        let n = self.entries.len();
        let mut acc: u64 = 0;
        let mut i: usize = 0;
        assert(self.entries@.take(0) =~= Seq::empty());
        while i < n
            invariant
                n == self.entries@.len(),
                i <= n,
                distinct_keys(self.entries@),
                entries_map(self.entries@.take(i as int)).kv_pairs().finite(),
                acc == table_digest::<V>(entries_map(self.entries@.take(i as int))),
            decreases n - i,
        {
            let d = self.entries[i].1.digest(self.entries[i].0.as_str());
            proof {
                let s = self.entries@;
                let t = s.take(i as int);
                let e = s[i as int];
                assert(s.take(i + 1) =~= t.push(e));
                lemma_entries_push(t, e);
                lemma_entries_keys(t);
                if entries_map(t).contains_key(e.0@) {
                    let j = choose|j: int| 0 <= j < t.len() && #[trigger] t[j].0@ == e.0@;
                    assert(s[j].0@ == s[i as int].0@);
                }
                lemma_digest_insert::<V>(entries_map(t), e.0@, e.1@);
            }
            acc = acc ^ d;
            i += 1;
        }
        assert(self.entries@.take(n as int) =~= self.entries@);
        acc
    }

    /// Whether two tables hold the same map, in whatever order.
    pub fn same_as(&self, other: &Table<V>) -> (r: bool)
        ensures
            r == (self@ == other@),
    {
        proof {
            use_type_invariant(self);
            use_type_invariant(other);
            lemma_entries_keys(self.entries@);
            lemma_entries_values(self.entries@);
            lemma_entries_keys(other.entries@);
            lemma_entries_values(other.entries@);
        }
        let n = self.entries.len();
        if n != other.entries.len() {
            return false;
        }
        let mut i: usize = 0;
        while i < n
            invariant
                n == self.entries@.len(),
                i <= n,
                distinct_keys(self.entries@),
                forall|j: int|
                    0 <= j < i ==> other@.contains_key(#[trigger] self.entries@[j].0@)
                        && other@[self.entries@[j].0@] == self.entries@[j].1@,
            decreases n - i,
        {
            let found = match other.get(self.entries[i].0.as_str()) {
                Some(v) => self.entries[i].1.matches(v),
                None => false,
            };
            if !found {
                proof {
                    lemma_entries_keys(self.entries@);
                    lemma_entries_values(self.entries@);
                    assert(self@.contains_key(self.entries@[i as int].0@));
                    assert(self@[self.entries@[i as int].0@] == self.entries@[i as int].1@);
                }
                return false;
            }
            i += 1;
        }
        proof {
            assert(self@.dom().subset_of(other@.dom())) by {
                assert forall|k: Seq<char>| self@.dom().contains(k) implies other@.dom().contains(
                    k,
                ) by {
                    let j = choose|j: int|
                        0 <= j < self.entries@.len() && #[trigger] self.entries@[j].0@ == k;
                    assert(other@.contains_key(self.entries@[j].0@));
                }
            }
            vstd::set_lib::lemma_subset_equality(self@.dom(), other@.dom());
            assert forall|k: Seq<char>| self@.contains_key(k) implies self@[k] == other@[k] by {
                let j = choose|j: int|
                    0 <= j < self.entries@.len() && #[trigger] self.entries@[j].0@ == k;
                assert(other@[self.entries@[j].0@] == self.entries@[j].1@);
            }
            assert(self@ =~= other@);
        }
        true
    }

    /// A copy of the table: the same map, the keys in the same order.
    pub fn duplicate(&self) -> (r: Self)
        ensures
            r@ == self@,
            r.order() == self.order(),
    {
        proof {
            use_type_invariant(self);
        }
        let n = self.entries.len();
        let mut entries: Vec<(String, V)> = Vec::new();
        let mut i: usize = 0;
        while i < n
            invariant
                n == self.entries@.len(),
                i <= n,
                entries@.len() == i,
                forall|j: int|
                    0 <= j < i ==> (#[trigger] entries@[j]).0@ == self.entries@[j].0@
                        && entries@[j].1@ == self.entries@[j].1@,
            decreases n - i,
        {
            let key = self.entries[i].0.clone();
            let value = self.entries[i].1.duplicate();
            entries.push((key, value));
            i += 1;
        }
        proof {
            lemma_entries_same(entries@, self.entries@);
        }
        let r = Table { entries };
        assert(r.order() =~= self.order());
        r
    }
}

impl<V: Record> Clone for Table<V> {
    fn clone(&self) -> (r: Self)
        ensures
            r@ == self@,
            r.order() == self.order(),
    {
        self.duplicate()
    }
}

} // verus!
