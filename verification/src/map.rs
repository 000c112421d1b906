//! A map held as a vector of entries with distinct keys, in the order in
//! which the keys were first inserted.
use vstd::prelude::*;

use crate::primitives::KeyEq;

verus! {

/// True when no key occurs twice in `s`.
pub open spec fn keys_distinct<K, V>(s: Seq<(K, V)>) -> bool {
    forall|i: int, j: int| 0 <= i < s.len() && 0 <= j < s.len() && i != j ==> s[i].0 != s[j].0
}

/// True when `k` is the key of some entry of `s`.
pub open spec fn has_key<K, V>(s: Seq<(K, V)>, k: K) -> bool {
    exists|i: int| 0 <= i < s.len() && s[i].0 == k
}

/// The position of the entry with key `k`, where there is one.
pub open spec fn key_pos<K, V>(s: Seq<(K, V)>, k: K) -> int {
    choose|i: int| 0 <= i < s.len() && s[i].0 == k
}

/// The map that a sequence of entries with distinct keys stands for.
pub open spec fn entries_map<K, V>(s: Seq<(K, V)>) -> Map<K, V> {
    Map::new(|k: K| has_key(s, k), |k: K| s[key_pos(s, k)].1)
}

/// A finite map from keys that compiled code can compare to values.
pub struct LinearMap<K, V> {
    entries: Vec<(K, V)>,
}

impl<K, V> LinearMap<K, V> {
    /// The entries, in insertion order.
    pub closed spec fn entries(&self) -> Seq<(K, V)> {
        self.entries@
    }

    /// No key occurs twice among the entries.
    #[verifier::type_invariant]
    pub open spec fn inv(&self) -> bool {
        keys_distinct(self.entries())
    }
}

/// `new` is `old` with the entry of `k` taken out; the other entries keep
/// their order.
pub open spec fn spec_removed<K, V>(new: LinearMap<K, V>, old: LinearMap<K, V>, k: K) -> bool {
    &&& new@ == old@.remove(k)
    &&& old@.contains_key(k) ==> exists|i: int|
        0 <= i < old.entries().len() && old.entries()[i].0 == k && new.entries()
            == old.entries().remove(i)
    &&& !old@.contains_key(k) ==> new.entries() == old.entries()
}

/// `new` is `old` with `k` set to `v`: an existing entry keeps its
/// position, a new key is appended.
pub open spec fn spec_inserted<K, V>(new: LinearMap<K, V>, old: LinearMap<K, V>, k: K, v: V) -> bool {
    &&& new@ == old@.insert(k, v)
    &&& old@.contains_key(k) ==> exists|i: int|
        0 <= i < old.entries().len() && old.entries()[i].0 == k && new.entries()
            == old.entries().update(i, (k, v))
    &&& !old@.contains_key(k) ==> new.entries() == old.entries().push((k, v))
}

/// A key of the map sits in an entry of it, with its value.
pub proof fn lemma_view_entry<K, V>(m: LinearMap<K, V>, k: K)
    requires
        m@.contains_key(k),
    ensures
        0 <= key_pos(m.entries(), k) < m.entries().len(),
        m.entries()[key_pos(m.entries(), k)].0 == k,
        m.entries()[key_pos(m.entries(), k)].1 == m@[k],
{
}

/// A prefix of entries with distinct keys has distinct keys.
pub proof fn lemma_prefix_distinct<K, V>(s: Seq<(K, V)>, i: int)
    requires
        keys_distinct(s),
        0 <= i <= s.len(),
    ensures
        keys_distinct(s.subrange(0, i)),
{
    let p = s.subrange(0, i);
    assert forall|a: int, b: int| 0 <= a < p.len() && 0 <= b < p.len() && a != b implies p[a].0
        != p[b].0 by {
        assert(p[a] == s[a]);
        assert(p[b] == s[b]);
    }
}

/// The map of entries with distinct keys is that of all but the last
/// entry, with the last entry set.
pub proof fn lemma_entries_map_push<K, V>(s: Seq<(K, V)>)
    requires
        keys_distinct(s),
        s.len() > 0,
    ensures
        entries_map(s) == entries_map(s.drop_last()).insert(s.last().0, s.last().1),
{
    let d = s.drop_last();
    let n = s.len() - 1;
    let m = entries_map(d).insert(s.last().0, s.last().1);
    assert forall|k: K| #[trigger] entries_map(s).contains_key(k) == m.contains_key(k) by {
        if has_key(s, k) && k != s.last().0 {
            let j = key_pos(s, k);
            assert(j != n);
            assert(d[j].0 == k);
        }
        if has_key(d, k) {
            let j = key_pos(d, k);
            assert(s[j].0 == k);
        }
        if k == s.last().0 {
            assert(s[n].0 == k);
        }
    }
    assert forall|k: K| entries_map(s).contains_key(k) implies #[trigger] entries_map(s)[k]
        == m[k] by {
        let j = key_pos(s, k);
        assert(s[j].0 == k);
        if k == s.last().0 {
            assert(s[n].0 == k);
            assert(j == n);
        } else {
            assert(j != n);
            assert(d[j].0 == k);
            let j2 = key_pos(d, k);
            assert(d[j2].0 == k);
            assert(s[j2].0 == k);
            assert(j == j2);
        }
    }
    assert(entries_map(s) =~= m);
}

impl<K, V> View for LinearMap<K, V> {
    type V = Map<K, V>;

    open spec fn view(&self) -> Map<K, V> {
        entries_map(self.entries())
    }
}

impl<K: KeyEq, V> LinearMap<K, V> {
    pub fn new() -> (r: Self)
        ensures
            r.entries() == Seq::<(K, V)>::empty(),
            r@ == Map::<K, V>::empty(),
    {
        let r = LinearMap { entries: Vec::new() };
        assert(r@ =~= Map::<K, V>::empty());
        r
    }

    pub fn len(&self) -> (r: usize)
        ensures
            r == self.entries().len(),
    {
        self.entries.len()
    }

    pub fn is_empty(&self) -> (r: bool)
        ensures
            r == (self.entries().len() == 0),
    {
        self.entries.len() == 0
    }

    /// The key and value of the entry at position `i`.
    pub fn entry_at(&self, i: usize) -> (r: (&K, &V))
        requires
            i < self.entries().len(),
        ensures
            *r.0 == self.entries()[i as int].0,
            *r.1 == self.entries()[i as int].1,
            self@.contains_key(*r.0),
            self@[*r.0] == *r.1,
    {
        proof {
            use_type_invariant(self);
        }
        let e = &self.entries[i];
        (&e.0, &e.1)
    }

    /// The position of the entry with key `k`, if any.
    pub fn find(&self, k: &K) -> (r: Option<usize>)
        ensures
            r.is_some() == self@.contains_key(*k),
            r.is_some() ==> {
                &&& r.unwrap() < self.entries().len()
                &&& self.entries()[r.unwrap() as int].0 == *k
                &&& self@[*k] == self.entries()[r.unwrap() as int].1
            },
            r.is_none() ==> forall|i: int|
                0 <= i < self.entries().len() ==> self.entries()[i].0 != *k,
    {
        proof {
            use_type_invariant(self);
        }
        let mut i: usize = 0;
        while i < self.entries.len()
            invariant
                i <= self.entries@.len(),
                keys_distinct(self.entries@),
                forall|j: int| 0 <= j < i ==> self.entries@[j].0 != *k,
            decreases self.entries@.len() - i,
        {
            if self.entries[i].0.key_eq(k) {
                proof {
                    assert(has_key(self.entries@, *k));
                    let j = key_pos(self.entries@, *k);
                    assert(self.entries@[j].0 == *k);
                    assert(j == i);
                }
                return Some(i);
            }
            i = i + 1;
        }
        None
    }

    pub fn contains_key(&self, k: &K) -> (r: bool)
        ensures
            r == self@.contains_key(*k),
    {
        self.find(k).is_some()
    }

    pub fn get(&self, k: &K) -> (r: Option<&V>)
        ensures
            r.is_some() == self@.contains_key(*k),
            r.is_some() ==> *r.unwrap() == self@[*k],
    {
        match self.find(k) {
            Some(i) => Some(&self.entries[i].1),
            None => None,
        }
    }

    /// Sets the value of `k`: an existing entry keeps its position, a new
    /// key is appended.
    pub fn insert(&mut self, k: K, v: V)
        ensures
            spec_inserted(*final(self), *old(self), k, v),
            final(self)@ == old(self)@.insert(k, v),
            old(self)@.contains_key(k) ==> exists|i: int|
                0 <= i < old(self).entries().len() && old(self).entries()[i].0 == k
                    && final(self).entries() == old(self).entries().update(i, (k, v)),
            !old(self)@.contains_key(k) ==> final(self).entries() == old(self).entries().push(
                (k, v),
            ),
    {
        proof {
            use_type_invariant(&*self);
        }
        let ghost old_entries = self.entries@;
        match self.find(&k) {
            Some(i) => {
                let mut es: Vec<(K, V)> = Vec::new();
                std::mem::swap(&mut es, &mut self.entries);
                es.set(i, (k, v));
                self.entries = es;
                assert(self.entries@ == old_entries.update(i as int, (k, v)));
                assert(self.entries@ =~= old_entries.update(i as int, (k, v)));
                assert(keys_distinct(self.entries@));
                assert(self@ =~= entries_map(old_entries).insert(k, v)) by {
                    assert forall|key: K| #[trigger]
                        self@.contains_key(key) implies entries_map(old_entries).insert(
                        k,
                        v,
                    ).contains_key(key) by {
                        let j = key_pos(self.entries@, key);
                        assert(0 <= j < old_entries.len());
                        if j != i {
                            assert(old_entries[j].0 == key);
                        }
                    }
                    assert forall|key: K| #[trigger]
                        entries_map(old_entries).insert(k, v).contains_key(key)
                            implies self@.contains_key(key) by {
                        if key != k {
                            let j = key_pos(old_entries, key);
                            assert(self.entries@[j].0 == key);
                        } else {
                            assert(self.entries@[i as int].0 == key);
                        }
                    }
                    assert forall|key: K| #[trigger]
                        self@.contains_key(key) implies self@[key] == entries_map(
                        old_entries,
                    ).insert(k, v)[key] by {
                        let j = key_pos(self.entries@, key);
                        if key != k {
                            let j2 = key_pos(old_entries, key);
                            assert(self.entries@[j2].0 == key);
                        }
                    }
                }
            },
            None => {
                let mut es: Vec<(K, V)> = Vec::new();
                std::mem::swap(&mut es, &mut self.entries);
                es.push((k, v));
                assert(keys_distinct(es@));
                self.entries = es;
                assert(keys_distinct(self.entries@));
                assert(self@ =~= entries_map(old_entries).insert(k, v)) by {
                    let n = old_entries.len() as int;
                    assert(self.entries@[n].0 == k);
                    assert forall|key: K| #[trigger]
                        entries_map(old_entries).insert(k, v).contains_key(key)
                            implies self@.contains_key(key) by {
                        if key != k {
                            let j = key_pos(old_entries, key);
                            assert(self.entries@[j].0 == key);
                        }
                    }
                    assert forall|key: K| #[trigger]
                        self@.contains_key(key) implies entries_map(old_entries).insert(
                        k,
                        v,
                    ).contains_key(key) by {
                        let j = key_pos(self.entries@, key);
                        if j < n {
                            assert(old_entries[j].0 == key);
                        }
                    }
                    assert forall|key: K| #[trigger]
                        self@.contains_key(key) implies self@[key] == entries_map(
                        old_entries,
                    ).insert(k, v)[key] by {
                        let j = key_pos(self.entries@, key);
                        if key != k {
                            let j2 = key_pos(old_entries, key);
                            assert(self.entries@[j2].0 == key);
                        }
                    }
                }
            },
        }
    }

    /// A copy: the same entries in the same order.
    pub fn copy(&self) -> (r: Self)
        where
            V: Copy,
        ensures
            r.entries() == self.entries(),
            r@ == self@,
    {
        let mut entries: Vec<(K, V)> = Vec::new();
        let n = self.entries.len();
        let mut i: usize = 0;
        while i < n
            invariant
                i <= n,
                n == self.entries@.len(),
                entries@ == self.entries@.take(i as int),
            decreases n - i,
        {
            entries.push(self.entries[i]);
            i = i + 1;
            assert(entries@ =~= self.entries@.take(i as int));
        }
        assert(self.entries@.take(n as int) =~= self.entries@);
        proof {
            use_type_invariant(self);
        }
        LinearMap { entries }
    }

    /// Sets every key of `other` to its value there.
    pub fn insert_all(&mut self, other: &Self)
        where
            V: Copy,
        ensures
            final(self)@ == old(self)@.union_prefer_right(other@),
    {
        proof {
            use_type_invariant(other);
        }
        let ghost start = self@;
        let ghost e = other.entries();
        let n = other.len();
        let mut i: usize = 0;
        while i < n
            invariant
                i <= n,
                n == e.len(),
                e == other.entries(),
                keys_distinct(e),
                self@ == start.union_prefer_right(entries_map(e.subrange(0, i as int))),
            decreases n - i,
        {
            let (k, v) = other.entry_at(i);
            let k = *k;
            let v = *v;
            proof {
                assert(e.subrange(0, i + 1).drop_last() =~= e.subrange(0, i as int));
                lemma_prefix_distinct(e, i + 1);
                lemma_entries_map_push(e.subrange(0, i + 1));
            }
            self.insert(k, v);
            i = i + 1;
            proof {
                assert(self@ =~= start.union_prefer_right(entries_map(e.subrange(0, i as int))));
            }
        }
        proof {
            assert(e.subrange(0, n as int) =~= e);
        }
    }

    /// Takes out every key of `other`.
    pub fn remove_keys_of<W>(&mut self, other: &LinearMap<K, W>)
        ensures
            final(self)@ == old(self)@.remove_keys(other@.dom()),
    {
        proof {
            use_type_invariant(other);
        }
        let ghost start = self@;
        let ghost e = other.entries();
        let n = other.len();
        let mut i: usize = 0;
        while i < n
            invariant
                i <= n,
                n == e.len(),
                e == other.entries(),
                keys_distinct(e),
                self@ == start.remove_keys(entries_map(e.subrange(0, i as int)).dom()),
            decreases n - i,
        {
            let (k, _) = other.entry_at(i);
            let k = *k;
            proof {
                assert(e.subrange(0, i + 1).drop_last() =~= e.subrange(0, i as int));
                lemma_prefix_distinct(e, i + 1);
                lemma_entries_map_push(e.subrange(0, i + 1));
            }
            self.remove(&k);
            i = i + 1;
            proof {
                assert(self@ =~= start.remove_keys(entries_map(e.subrange(0, i as int)).dom()));
            }
        }
        proof {
            assert(e.subrange(0, n as int) =~= e);
        }
    }

    /// The entries whose key `keys` holds, in their order.
    pub fn restricted_to<W>(&self, keys: &LinearMap<K, W>) -> (r: Self)
        where
            V: Copy,
        ensures
            r@ == self@.restrict(keys@.dom()),
    {
        proof {
            use_type_invariant(self);
        }
        let ghost e = self.entries();
        let mut r = LinearMap::new();
        let n = self.len();
        let mut i: usize = 0;
        while i < n
            invariant
                i <= n,
                n == e.len(),
                e == self.entries(),
                keys_distinct(e),
                r@ == entries_map(e.subrange(0, i as int)).restrict(keys@.dom()),
            decreases n - i,
        {
            let (k, v) = self.entry_at(i);
            let k = *k;
            let v = *v;
            proof {
                assert(e.subrange(0, i + 1).drop_last() =~= e.subrange(0, i as int));
                lemma_prefix_distinct(e, i + 1);
                lemma_entries_map_push(e.subrange(0, i + 1));
            }
            if keys.contains_key(&k) {
                r.insert(k, v);
            }
            i = i + 1;
            proof {
                assert(r@ =~= entries_map(e.subrange(0, i as int)).restrict(keys@.dom()));
            }
        }
        proof {
            assert(e.subrange(0, n as int) =~= e);
        }
        r
    }

    /// Takes out the entry of `k`, if any; the other entries keep their order.
    pub fn remove(&mut self, k: &K) -> (r: Option<V>)
        ensures
            spec_removed(*final(self), *old(self), *k),
            final(self)@ == old(self)@.remove(*k),
            r.is_some() == old(self)@.contains_key(*k),
            r.is_some() ==> r.unwrap() == old(self)@[*k],
            old(self)@.contains_key(*k) ==> exists|i: int|
                0 <= i < old(self).entries().len() && old(self).entries()[i].0 == *k
                    && final(self).entries() == old(self).entries().remove(i),
            !old(self)@.contains_key(*k) ==> final(self).entries() == old(self).entries(),
    {
        proof {
            use_type_invariant(&*self);
        }
        let ghost old_entries = self.entries@;
        match self.find(k) {
            Some(i) => {
                let mut es: Vec<(K, V)> = Vec::new();
                std::mem::swap(&mut es, &mut self.entries);
                let (_, v) = es.remove(i);
                assert(es@ =~= old_entries.remove(i as int));
                assert(keys_distinct(es@));
                self.entries = es;
                assert(self.entries@ =~= old_entries.remove(i as int));
                assert(keys_distinct(self.entries@));
                assert(self@ =~= entries_map(old_entries).remove(*k)) by {
                    assert forall|key: K| #[trigger]
                        self@.contains_key(key) implies entries_map(old_entries).remove(
                        *k,
                    ).contains_key(key) by {
                        let j = key_pos(self.entries@, key);
                        if j < i {
                            assert(old_entries[j].0 == key);
                        } else {
                            assert(old_entries[j + 1].0 == key);
                        }
                    }
                    assert forall|key: K| #[trigger]
                        entries_map(old_entries).remove(*k).contains_key(key)
                            implies self@.contains_key(key) by {
                        let j = key_pos(old_entries, key);
                        if j < i {
                            assert(self.entries@[j].0 == key);
                        } else {
                            assert(self.entries@[j - 1].0 == key);
                        }
                    }
                    assert forall|key: K| #[trigger]
                        self@.contains_key(key) implies self@[key] == entries_map(
                        old_entries,
                    ).remove(*k)[key] by {
                        let j = key_pos(self.entries@, key);
                        let j2 = key_pos(old_entries, key);
                        if j < i {
                            assert(old_entries[j].0 == key);
                        } else {
                            assert(old_entries[j + 1].0 == key);
                        }
                    }
                }
                Some(v)
            },
            None => {
                assert(self@ =~= entries_map(old_entries).remove(*k));
                None
            },
        }
    }

    /// Takes out the entry at position `i`; the other entries keep their
    /// order.
    pub fn take(&mut self, i: usize) -> (r: (K, V))
        requires
            i < old(self).entries().len(),
        ensures
            r == old(self).entries()[i as int],
            final(self).entries() == old(self).entries().remove(i as int),
            final(self)@ == old(self)@.remove(r.0),
            old(self)@.contains_key(r.0),
            old(self)@[r.0] == r.1,
    {
        proof {
            use_type_invariant(&*self);
        }
        let ghost old_entries = self.entries@;
        let mut es: Vec<(K, V)> = Vec::new();
        std::mem::swap(&mut es, &mut self.entries);
        let e = es.remove(i);
        assert(es@ =~= old_entries.remove(i as int));
        assert(keys_distinct(es@));
        self.entries = es;
        proof {
            let k = e.0;
            assert(old_entries[i as int].0 == k);
            assert(has_key(old_entries, k));
            let p = key_pos(old_entries, k);
            assert(p == i);
            assert(self@ =~= entries_map(old_entries).remove(k)) by {
                assert forall|key: K| #[trigger]
                    self@.contains_key(key) implies entries_map(old_entries).remove(
                    k,
                ).contains_key(key) by {
                    let j = key_pos(self.entries@, key);
                    if j < i {
                        assert(old_entries[j].0 == key);
                    } else {
                        assert(old_entries[j + 1].0 == key);
                    }
                }
                assert forall|key: K| #[trigger]
                    entries_map(old_entries).remove(k).contains_key(key)
                        implies self@.contains_key(key) by {
                    let j = key_pos(old_entries, key);
                    if j < i {
                        assert(self.entries@[j].0 == key);
                    } else {
                        assert(self.entries@[j - 1].0 == key);
                    }
                }
                assert forall|key: K| #[trigger]
                    self@.contains_key(key) implies self@[key] == entries_map(old_entries).remove(
                    k,
                )[key] by {
                    let j = key_pos(self.entries@, key);
                    let j2 = key_pos(old_entries, key);
                    if j < i {
                        assert(old_entries[j].0 == key);
                    } else {
                        assert(old_entries[j + 1].0 == key);
                    }
                }
            }
        }
        e
    }

    /// Puts the entry `(k, v)` at position `i`, for a key that the map does
    /// not hold.
    pub fn put_back(&mut self, i: usize, k: K, v: V)
        requires
            i <= old(self).entries().len(),
            !old(self)@.contains_key(k),
        ensures
            final(self).entries() == old(self).entries().insert(i as int, (k, v)),
            final(self)@ == old(self)@.insert(k, v),
    {
        proof {
            use_type_invariant(&*self);
        }
        let ghost old_entries = self.entries@;
        assert forall|j: int| 0 <= j < old_entries.len() implies old_entries[j].0 != k by {
            if old_entries[j].0 == k {
                assert(has_key(old_entries, k));
            }
        }
        let mut es: Vec<(K, V)> = Vec::new();
        std::mem::swap(&mut es, &mut self.entries);
        es.insert(i, (k, v));
        assert(es@ =~= old_entries.insert(i as int, (k, v)));
        assert(keys_distinct(es@));
        self.entries = es;
        proof {
            assert(self.entries@[i as int].0 == k);
            assert(self@ =~= entries_map(old_entries).insert(k, v)) by {
                assert forall|key: K| #[trigger]
                    entries_map(old_entries).insert(k, v).contains_key(key)
                        implies self@.contains_key(key) by {
                    if key != k {
                        let j = key_pos(old_entries, key);
                        if j < i {
                            assert(self.entries@[j].0 == key);
                        } else {
                            assert(self.entries@[j + 1].0 == key);
                        }
                    }
                }
                assert forall|key: K| #[trigger]
                    self@.contains_key(key) implies entries_map(old_entries).insert(
                    k,
                    v,
                ).contains_key(key) by {
                    let j = key_pos(self.entries@, key);
                    if j < i {
                        assert(old_entries[j].0 == key);
                    } else if j > i {
                        assert(old_entries[j - 1].0 == key);
                    }
                }
                assert forall|key: K| #[trigger]
                    self@.contains_key(key) implies self@[key] == entries_map(old_entries).insert(
                    k,
                    v,
                )[key] by {
                    let j = key_pos(self.entries@, key);
                    if key != k {
                        let j2 = key_pos(old_entries, key);
                        if j2 < i {
                            assert(self.entries@[j2].0 == key);
                        } else {
                            assert(self.entries@[j2 + 1].0 == key);
                        }
                    }
                }
            }
        }
    }
}

} // verus!
