//! A map from identifiers to values.
//!
//! Entries sit in a vector in no promised order; no identifier occurs twice.

use vstd::prelude::*;

use crate::keys::Id;

verus! {

broadcast use vstd::set::group_set_axioms;

/// The map that a list of entries stands for.
spec fn entries_map<K, V>(s: Seq<(K, V)>) -> Map<K, V>
    decreases s.len(),
{
    if s.len() == 0 {
        Map::empty()
    } else {
        entries_map(s.drop_last()).insert(s.last().0, s.last().1)
    }
}

/// No identifier occurs in two entries.
spec fn distinct_keys<K, V>(s: Seq<(K, V)>) -> bool {
    forall|i: int, j: int| 0 <= i < j < s.len() ==> (#[trigger] s[i]).0 != (#[trigger] s[j]).0
}

/// `m` holds the entries of `s` and nothing else.
spec fn lists<K, V>(s: Seq<(K, V)>, m: Map<K, V>) -> bool {
    &&& forall|i: int| 0 <= i < s.len() ==> m.contains_key((#[trigger] s[i]).0) && m[s[i].0] == s[i].1
    &&& forall|k: K| #[trigger]
        m.contains_key(k) ==> exists|i: int| 0 <= i < s.len() && (#[trigger] s[i]).0 == k
}

proof fn lemma_lists<K, V>(s: Seq<(K, V)>)
    requires
        distinct_keys(s),
    ensures
        entries_map(s).dom().finite(),
        entries_map(s).len() == s.len(),
        lists(s, entries_map(s)),
    decreases s.len(),
{
    if s.len() > 0 {
        let t = s.drop_last();
        let k0 = s.last().0;
        assert forall|i: int| 0 <= i < t.len() implies #[trigger] t[i] == s[i] && s[i].0 != k0 by {
            assert(s[i].0 != s[s.len() - 1].0);
        }
        assert(distinct_keys(t));
        lemma_lists(t);
        assert forall|i: int| 0 <= i < s.len() implies entries_map(s).contains_key(
            (#[trigger] s[i]).0,
        ) && entries_map(s)[s[i].0] == s[i].1 by {
            if i < t.len() {
                assert(t[i] == s[i]);
            }
        }
        assert forall|k: K| #[trigger] entries_map(s).contains_key(k) implies exists|i: int|
            0 <= i < s.len() && (#[trigger] s[i]).0 == k by {
            if k != k0 {
                assert(entries_map(t).contains_key(k));
                let i = choose|i: int| 0 <= i < t.len() && (#[trigger] t[i]).0 == k;
                assert(s[i].0 == k);
            } else {
                assert(s[s.len() - 1].0 == k);
            }
        }
    }
}

/// A list without repeated identifiers stands for the one map that holds its entries.
proof fn lemma_lists_unique<K, V>(s: Seq<(K, V)>, m: Map<K, V>)
    requires
        distinct_keys(s),
        lists(s, m),
    ensures
        entries_map(s) == m,
{
    lemma_lists(s);
    let e = entries_map(s);
    assert forall|k: K| #[trigger] e.contains_key(k) == m.contains_key(k) && (m.contains_key(k)
        ==> e[k] == m[k]) by {
        if e.contains_key(k) {
            let j = choose|j: int| 0 <= j < s.len() && (#[trigger] s[j]).0 == k;
            assert(m.contains_key(s[j].0));
        }
        if m.contains_key(k) {
            let j = choose|j: int| 0 <= j < s.len() && (#[trigger] s[j]).0 == k;
            assert(e.contains_key(s[j].0) && e[s[j].0] == m[s[j].0]);
        }
    }
    assert(e =~= m);
}

/// Changing the value of one entry changes the map at its identifier alone.
proof fn lemma_update<K, V>(s: Seq<(K, V)>, i: int)
    requires
        distinct_keys(s),
        0 <= i < s.len(),
    ensures
        forall|v: V| #![trigger s.update(i, (s[i].0, v))]
            distinct_keys(s.update(i, (s[i].0, v)))
            && entries_map(s.update(i, (s[i].0, v))) == entries_map(s).insert(s[i].0, v),
{
    lemma_lists(s);
    assert forall|v: V| #![trigger s.update(i, (s[i].0, v))]
        distinct_keys(s.update(i, (s[i].0, v)))
        && entries_map(s.update(i, (s[i].0, v))) == entries_map(s).insert(s[i].0, v) by {
        let t = s.update(i, (s[i].0, v));
        let m = entries_map(s).insert(s[i].0, v);
        assert forall|a: int, b: int| 0 <= a < b < t.len() implies (#[trigger] t[a]).0 != (
        #[trigger] t[b]).0 by {
            assert(t[a].0 == s[a].0);
            assert(t[b].0 == s[b].0);
        }
        assert forall|a: int| 0 <= a < t.len() implies m.contains_key((#[trigger] t[a]).0)
            && m[t[a].0] == t[a].1 by {
            assert(t[a].0 == s[a].0);
            if a < i {
                assert(s[a].0 != s[i].0);
            } else if a > i {
                assert(s[i].0 != s[a].0);
            }
        }
        assert forall|k: K| #[trigger] m.contains_key(k) implies exists|a: int|
            0 <= a < t.len() && (#[trigger] t[a]).0 == k by {
            assert(entries_map(s).contains_key(s[i].0));
            assert(entries_map(s).contains_key(k));
            let a = choose|a: int| 0 <= a < s.len() && (#[trigger] s[a]).0 == k;
            assert(t[a].0 == k);
        }
        lemma_lists_unique(t, m);
    }
}

/// Appending an entry under a fresh identifier inserts it.
proof fn lemma_push<K, V>(s: Seq<(K, V)>, k: K, v: V)
    requires
        distinct_keys(s),
        !entries_map(s).contains_key(k),
    ensures
        distinct_keys(s.push((k, v))),
        entries_map(s.push((k, v))) == entries_map(s).insert(k, v),
{
    lemma_lists(s);
    let t = s.push((k, v));
    assert forall|a: int, b: int| 0 <= a < b < t.len() implies (#[trigger] t[a]).0 != (#[trigger] t[b]).0 by {
        assert(t[a] == s[a]);
        assert(entries_map(s).contains_key(s[a].0));
        if b < s.len() {
            assert(t[b] == s[b]);
        }
    }
    assert(t.drop_last() =~= s);
}

/// Taking out the entry at a position removes its identifier.
proof fn lemma_remove<K, V>(s: Seq<(K, V)>, i: int)
    requires
        distinct_keys(s),
        0 <= i < s.len(),
    ensures
        distinct_keys(s.remove(i)),
        entries_map(s.remove(i)) == entries_map(s).remove(s[i].0),
{
    lemma_lists(s);
    let t = s.remove(i);
    let m = entries_map(s).remove(s[i].0);
    assert forall|a: int| 0 <= a < t.len() implies #[trigger] t[a] == s[if a < i {
        a
    } else {
        a + 1
    }] by {}
    assert(distinct_keys(t));
    assert forall|a: int| 0 <= a < t.len() implies m.contains_key((#[trigger] t[a]).0)
        && m[t[a].0] == t[a].1 by {
        if a < i {
            assert(s[a].0 != s[i].0);
        } else {
            assert(s[i].0 != s[a + 1].0);
        }
    }
    assert forall|k: K| #[trigger] m.contains_key(k) implies exists|a: int|
        0 <= a < t.len() && (#[trigger] t[a]).0 == k by {
        let a = choose|a: int| 0 <= a < s.len() && (#[trigger] s[a]).0 == k;
        if a < i {
            assert(t[a].0 == k);
        } else {
            assert(t[a - 1].0 == k);
        }
    }
    lemma_lists_unique(t, m);
}

/// A map from identifiers to values.
pub struct IdMap<K, V> {
    entries: Vec<(K, V)>,
}

impl<K, V> View for IdMap<K, V> {
    type V = Map<K, V>;

    closed spec fn view(&self) -> Map<K, V> {
        entries_map(self.entries@)
    }
}

impl<K: Id, V> IdMap<K, V> {
    /// No identifier occurs twice.
    pub closed spec fn wf(&self) -> bool {
        distinct_keys(self.entries@)
    }

    /// An empty map.
    pub fn new() -> (m: Self)
        ensures
            m.wf(),
            m@ == Map::<K, V>::empty(),
    {
        IdMap { entries: Vec::new() }
    }

    /// The number of entries.
    pub fn len(&self) -> (n: usize)
        requires
            self.wf(),
        ensures
            self@.dom().finite(),
            n == self@.len(),
    {
        proof {
            lemma_lists(self.entries@);
        }
        self.entries.len()
    }

    /// Whether the map holds nothing.
    pub fn is_empty(&self) -> (b: bool)
        requires
            self.wf(),
        ensures
            b == (self@ == Map::<K, V>::empty()),
    {
        proof {
            lemma_lists(self.entries@);
            if self.entries@.len() > 0 {
                assert(self@.contains_key(self.entries@[0].0));
            }
        }
        self.entries.len() == 0
    }

    /// The position of `key`, if it occurs.
    fn position(&self, key: &K) -> (r: Option<usize>)
        requires
            self.wf(),
        ensures
            match r {
                Some(i) => i < self.entries@.len() && self.entries@[i as int].0 == *key
                    && self@.contains_key(*key) && self@[*key] == self.entries@[i as int].1,
                None => !self@.contains_key(*key),
            },
    {
        proof {
            lemma_lists(self.entries@);
        }
        let mut i: usize = 0;
        while i < self.entries.len()
            invariant
                lists(self.entries@, self@),
                i <= self.entries@.len(),
                forall|j: int| 0 <= j < i ==> (#[trigger] self.entries@[j]).0 != *key,
            decreases self.entries@.len() - i,
        {
            if self.entries[i].0.same(key) {
                return Some(i);
            }
            i = i + 1;
        }
        None
    }

    /// Whether `key` occurs.
    pub fn contains_key(&self, key: &K) -> (b: bool)
        requires
            self.wf(),
        ensures
            b == self@.contains_key(*key),
    {
        self.position(key).is_some()
    }

    /// The value at `key`.
    pub fn get(&self, key: &K) -> (r: Option<&V>)
        requires
            self.wf(),
        ensures
            match r {
                Some(v) => self@.contains_key(*key) && *v == self@[*key],
                None => !self@.contains_key(*key),
            },
    {
        match self.position(key) {
            Some(i) => Some(&self.entries[i].1),
            None => None,
        }
    }

    /// The value at `key`, for changing in place.
    pub fn get_mut(&mut self, key: &K) -> (r: Option<&mut V>)
        requires
            old(self).wf(),
        ensures
            final(self).wf(),
            match r {
                Some(v) => old(self)@.contains_key(*key) && *v == old(self)@[*key]
                    && final(self)@ == old(self)@.insert(*key, *final(v)),
                None => !old(self)@.contains_key(*key) && final(self)@ == old(self)@,
            },
    {
        match self.position(key) {
            Some(i) => {
                proof {
                    lemma_update(self.entries@, i as int);
                }
                let entry = &mut self.entries[i];
                Some(&mut entry.1)
            },
            None => None,
        }
    }

    /// Puts `value` at `key`, and gives back what was there.
    pub fn insert(&mut self, key: K, value: V) -> (r: Option<V>)
        requires
            old(self).wf(),
        ensures
            final(self).wf(),
            final(self)@ == old(self)@.insert(key, value),
            r == (if old(self)@.contains_key(key) {
                Some(old(self)@[key])
            } else {
                None
            }),
    {
        match self.position(&key) {
            Some(i) => {
                proof {
                    lemma_update(self.entries@, i as int);
                }
                let mut held = value;
                std::mem::swap(&mut self.entries[i].1, &mut held);
                Some(held)
            },
            None => {
                proof {
                    lemma_push(self.entries@, key, value);
                }
                self.entries.push((key, value));
                None
            },
        }
    }

    /// Takes out the entry at `key`, and gives back its value.
    pub fn remove(&mut self, key: &K) -> (r: Option<V>)
        requires
            old(self).wf(),
        ensures
            final(self).wf(),
            final(self)@ == old(self)@.remove(*key),
            r == (if old(self)@.contains_key(*key) {
                Some(old(self)@[*key])
            } else {
                None
            }),
    {
        match self.position(key) {
            Some(i) => {
                proof {
                    lemma_remove(self.entries@, i as int);
                }
                let (_, value) = self.entries.remove(i);
                Some(value)
            },
            None => {
                assert(self@ =~= self@.remove(*key));
                None
            },
        }
    }

    /// Takes out every entry that `keep` turns down.
    pub fn retain(&mut self, keep: impl Fn(&K, &V) -> bool)
        requires
            old(self).wf(),
            forall|k: &K, v: &V| #[trigger] keep.requires((k, v)),
        ensures
            final(self).wf(),
            final(self)@.submap_of(old(self)@),
            forall|k: K| #[trigger]
                final(self)@.contains_key(k) ==> keep.ensures((&k, &old(self)@[k]), true),
            forall|k: K| #[trigger]
                old(self)@.contains_key(k) && !final(self)@.contains_key(k) ==> keep.ensures(
                    (&k, &old(self)@[k]),
                    false,
                ),
    {
        let ghost before = self@;
        proof {
            lemma_lists(self.entries@);
        }
        let mut i: usize = 0;
        while i < self.entries.len()
            invariant
                self.wf(),
                before == old(self)@,
                forall|k: &K, v: &V| #[trigger] keep.requires((k, v)),
                i <= self.entries@.len(),
                self@.submap_of(before),
                lists(self.entries@, self@),
                forall|j: int|
                    0 <= j < i ==> keep.ensures(
                        (&(#[trigger] self.entries@[j]).0, &self.entries@[j].1),
                        true,
                    ),
                forall|k: K| #[trigger]
                    before.contains_key(k) && !self@.contains_key(k) ==> keep.ensures(
                        (&k, &before[k]),
                        false,
                    ),
            decreases self.entries@.len() - i,
        {
            assert(self@.contains_key(self.entries@[i as int].0));
            if keep(&self.entries[i].0, &self.entries[i].1) {
                i = i + 1;
            } else {
                let ghost kept = self.entries@;
                proof {
                    lemma_remove(self.entries@, i as int);
                }
                let _ = self.entries.remove(i);
                proof {
                    lemma_lists(self.entries@);
                    assert forall|j: int| 0 <= j < i implies #[trigger] self.entries@[j] == kept[j] by {}
                }
            }
        }
        assert forall|k: K| #[trigger] self@.contains_key(k) implies keep.ensures(
            (&k, &before[k]),
            true,
        ) by {
            let j = choose|j: int| 0 <= j < self.entries@.len() && (#[trigger] self.entries@[j]).0 == k;
            assert(self@[k] == before[k]);
        }
    }

    /// Empties the map, and gives back its entries.
    pub fn drain(&mut self) -> (entries: Vec<(K, V)>)
        requires
            old(self).wf(),
        ensures
            final(self).wf(),
            final(self)@ == Map::<K, V>::empty(),
            entries@.len() == old(self)@.len(),
            forall|i: int|
                0 <= i < entries@.len() ==> old(self)@.contains_key((#[trigger] entries@[i]).0)
                    && old(self)@[entries@[i].0] == entries@[i].1,
            forall|k: K| #[trigger]
                old(self)@.contains_key(k) ==> exists|i: int|
                    0 <= i < entries@.len() && (#[trigger] entries@[i]).0 == k,
            forall|i: int, j: int|
                0 <= i < j < entries@.len() ==> (#[trigger] entries@[i]).0 != (#[trigger] entries@[j]).0,
    {
        proof {
            lemma_lists(self.entries@);
        }
        let mut taken: Vec<(K, V)> = Vec::new();
        std::mem::swap(&mut taken, &mut self.entries);
        taken
    }
}

} // verus!
