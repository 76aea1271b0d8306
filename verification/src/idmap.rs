//! A map keyed by 128-bit identifiers, kept as a vector of pairs with no key
//! twice. Its view is a `Map`.
use vstd::prelude::*;

verus! {

/// Keys are pairwise distinct.
pub open spec fn distinct_keys<V>(s: Seq<(u128, V)>) -> bool {
    forall|i: int, j: int| 0 <= i < j < s.len() ==> s[i].0 != s[j].0
}

/// Whether `k` occurs as a key.
pub open spec fn has_key<V>(s: Seq<(u128, V)>, k: u128) -> bool {
    exists|i: int| 0 <= i < s.len() && s[i].0 == k
}

/// The map that a pair sequence stands for.
pub open spec fn pairs_map<V>(s: Seq<(u128, V)>) -> Map<u128, V> {
    Map::new(
        |k: u128| has_key(s, k),
        |k: u128| s[choose|i: int| 0 <= i < s.len() && s[i].0 == k].1,
    )
}

/// With distinct keys, the entry at `i` gives the value of its key.
pub proof fn lemma_pairs_map_at<V>(s: Seq<(u128, V)>, i: int)
    requires
        distinct_keys(s),
        0 <= i < s.len(),
    ensures
        pairs_map(s).dom().contains(s[i].0),
        pairs_map(s)[s[i].0] == s[i].1,
{
    let k = s[i].0;
    assert(has_key(s, k));
    let j = choose|j: int| 0 <= j < s.len() && s[j].0 == k;
    assert(j == i);
}

/// A map from identifiers to values.
#[derive(Debug)]
pub struct IdMap<V> {
    entries: Vec<(u128, V)>,
}

impl<V> View for IdMap<V> {
    type V = Map<u128, V>;

    closed spec fn view(&self) -> Map<u128, V> {
        pairs_map(self.entries@)
    }
}

impl<V> IdMap<V> {
    #[verifier::type_invariant]
    closed spec fn inv(self) -> bool {
        distinct_keys(self.entries@)
    }

    /// The keys in the order they were first inserted.
    pub closed spec fn key_seq(self) -> Seq<u128> {
        self.entries@.map_values(|e: (u128, V)| e.0)
    }

    /// The entries in key order.
    pub closed spec fn entry_seq(self) -> Seq<(u128, V)> {
        self.entries@
    }

    /// An empty map.
    pub fn new() -> (m: IdMap<V>)
        ensures
            m@ == Map::<u128, V>::empty(),
            m.entry_seq().len() == 0,
    {
        let m = IdMap { entries: Vec::new() };
        assert(m@ =~= Map::<u128, V>::empty());
        m
    }

    /// The number of entries. The entries in key order have distinct keys
    /// and stand for the map.
    pub fn len(&self) -> (n: usize)
        ensures
            n == self@.dom().len(),
            n == self.entry_seq().len(),
            distinct_keys(self.entry_seq()),
            self@ == pairs_map(self.entry_seq()),
            self@.dom().finite(),
    {
        proof {
            use_type_invariant(self);
            self.lemma_len();
        }
        self.entries.len()
    }

    proof fn lemma_len(self)
        requires
            distinct_keys(self.entries@),
        ensures
            self@.dom().len() == self.entries@.len(),
            self@.dom().finite(),
    {
        let keys = self.entries@.map_values(|e: (u128, V)| e.0);
        assert forall|x: u128| self@.dom().contains(x) <==> keys.to_set().contains(x) by {
            if self@.dom().contains(x) {
                let j = choose|j: int| 0 <= j < self.entries@.len() && self.entries@[j].0 == x;
                assert(keys[j] == x);
            }
            if keys.to_set().contains(x) {
                assert(keys.contains(x));
                let j = choose|j: int| 0 <= j < keys.len() && keys[j] == x;
                assert(self.entries@[j].0 == x);
            }
        }
        assert(self@.dom() =~= keys.to_set());
        vstd::seq_lib::seq_to_set_is_finite(keys);
        assert forall|i: int, j: int| 0 <= i < keys.len() && 0 <= j < keys.len() && i != j implies keys[i] != keys[j] by {
            if i < j {
            } else {
            }
        }
        assert(keys.no_duplicates());
        keys.unique_seq_to_set();
    }

    /// The position of `k`, if present.
    fn index_of(&self, k: u128) -> (r: Option<usize>)
        ensures
            match r {
                Some(i) => i < self.entries@.len() && self.entries@[i as int].0 == k,
                None => !has_key(self.entries@, k),
            },
    {
        let mut i: usize = 0;
        while i < self.entries.len()
            invariant
                0 <= i <= self.entries@.len(),
                forall|j: int| 0 <= j < i ==> self.entries@[j].0 != k,
            decreases self.entries@.len() - i,
        {
            if self.entries[i].0 == k {
                return Some(i);
            }
            i = i + 1;
        }
        None
    }

    /// Whether `k` is a key.
    pub fn contains_key(&self, k: u128) -> (b: bool)
        ensures
            b == self@.dom().contains(k),
    {
        self.index_of(k).is_some()
    }

    /// The value of `k`, if present.
    pub fn get(&self, k: u128) -> (r: Option<&V>)
        ensures
            match r {
                Some(v) => self@.dom().contains(k) && self@[k] == *v,
                None => !self@.dom().contains(k),
            },
    {
        proof {
            use_type_invariant(self);
        }
        match self.index_of(k) {
            Some(i) => {
                proof {
                    lemma_pairs_map_at(self.entries@, i as int);
                }
                Some(&self.entries[i].1)
            },
            None => None,
        }
    }

    /// Sets the value of `k`; a new key goes last in key order.
    pub fn insert(&mut self, k: u128, v: V)
        ensures
            final(self)@ == old(self)@.insert(k, v),
            old(self)@.dom().contains(k) ==> final(self).key_seq() == old(self).key_seq(),
            !old(self)@.dom().contains(k) ==> final(self).key_seq() == old(self).key_seq().push(k),
            old(self)@.dom().contains(k) ==> exists|i: int| 0 <= i < old(self).entry_seq().len()
                && old(self).entry_seq()[i].0 == k && final(self).entry_seq()
                == old(self).entry_seq().update(i, (k, v)),
            !old(self)@.dom().contains(k) ==> final(self).entry_seq() == old(self).entry_seq().push((k, v)),
    {
        proof {
            use_type_invariant(&*self);
        }
        let ghost old_s = self.entries@;
        match self.index_of(k) {
            Some(i) => {
                let mut es: Vec<(u128, V)> = Vec::new();
                std::mem::swap(&mut es, &mut self.entries);
                es.set(i, (k, v));
                let ghost s = es@;
                assert(distinct_keys(s));
                assert forall|x: u128| #[trigger] pairs_map(s).dom().contains(x) == pairs_map(old_s).insert(k, v).dom().contains(x) by {
                    if has_key(s, x) {
                        let j = choose|j: int| 0 <= j < s.len() && s[j].0 == x;
                        if j != i {
                            assert(old_s[j].0 == x);
                        }
                    }
                    if has_key(old_s, x) {
                        let j = choose|j: int| 0 <= j < old_s.len() && old_s[j].0 == x;
                        assert(s[j].0 == x);
                    }
                }
                assert forall|x: u128| #[trigger] pairs_map(s).dom().contains(x) implies pairs_map(s)[x] == pairs_map(old_s).insert(k, v)[x] by {
                    let j = choose|j: int| 0 <= j < s.len() && s[j].0 == x;
                    lemma_pairs_map_at(s, j);
                    if x != k {
                        assert(old_s[j] == s[j]);
                        lemma_pairs_map_at(old_s, j);
                    }
                }
                assert(pairs_map(s) =~= pairs_map(old_s).insert(k, v));
                self.entries = es;
                assert(self.key_seq() =~= old(self).key_seq());
                assert(self.entry_seq() == old(self).entry_seq().update(i as int, (k, v)));
            },
            None => {
                let mut es: Vec<(u128, V)> = Vec::new();
                std::mem::swap(&mut es, &mut self.entries);
                es.push((k, v));
                let ghost s = es@;
                assert(distinct_keys(s));
                assert forall|x: u128| #[trigger] pairs_map(s).dom().contains(x) == pairs_map(old_s).insert(k, v).dom().contains(x) by {
                    if has_key(old_s, x) {
                        let j = choose|j: int| 0 <= j < old_s.len() && old_s[j].0 == x;
                        assert(s[j].0 == x);
                    }
                    if x == k {
                        assert(s[s.len() - 1].0 == k);
                    }
                    if has_key(s, x) && x != k {
                        let j = choose|j: int| 0 <= j < s.len() && s[j].0 == x;
                        assert(old_s[j].0 == x);
                    }
                }
                assert forall|x: u128| #[trigger] pairs_map(s).dom().contains(x) implies pairs_map(s)[x] == pairs_map(old_s).insert(k, v)[x] by {
                    let j = choose|j: int| 0 <= j < s.len() && s[j].0 == x;
                    lemma_pairs_map_at(s, j);
                    if x != k {
                        assert(old_s[j] == s[j]);
                        lemma_pairs_map_at(old_s, j);
                    }
                }
                assert(pairs_map(s) =~= pairs_map(old_s).insert(k, v));
                self.entries = es;
                assert(self.key_seq() =~= old(self).key_seq().push(k));
            },
        }
    }

    /// Removes `k` and returns its value, if present.
    pub fn remove(&mut self, k: u128) -> (r: Option<V>)
        ensures
            final(self)@ == old(self)@.remove(k),
            match r {
                Some(v) => old(self)@.dom().contains(k) && old(self)@[k] == v,
                None => !old(self)@.dom().contains(k),
            },
    {
        proof {
            use_type_invariant(&*self);
        }
        let ghost old_s = self.entries@;
        match self.index_of(k) {
            Some(i) => {
                proof {
                    lemma_pairs_map_at(old_s, i as int);
                }
                let mut es: Vec<(u128, V)> = Vec::new();
                std::mem::swap(&mut es, &mut self.entries);
                let (_, v) = es.remove(i);
                let ghost s = es@;
                assert forall|a: int| 0 <= a < s.len() implies #[trigger] s[a] == old_s[if a < i { a } else { a + 1 }] by {}
                assert(distinct_keys(s)) by {
                    assert forall|a: int, b: int| 0 <= a < b < s.len() implies s[a].0 != s[b].0 by {
                        let a2 = if a < i { a } else { a + 1 };
                        let b2 = if b < i { b } else { b + 1 };
                        assert(s[a] == old_s[a2]);
                        assert(s[b] == old_s[b2]);
                    }
                }
                assert forall|x: u128| #[trigger] pairs_map(s).dom().contains(x) == pairs_map(old_s).remove(k).dom().contains(x) by {
                    if has_key(s, x) {
                        let j = choose|j: int| 0 <= j < s.len() && s[j].0 == x;
                        let j2 = if j < i { j } else { j + 1 };
                        assert(old_s[j2].0 == x);
                        assert(j2 != i);
                    }
                    if has_key(old_s, x) && x != k {
                        let j = choose|j: int| 0 <= j < old_s.len() && old_s[j].0 == x;
                        assert(j != i);
                        let j2 = if j < i { j } else { j - 1 };
                        assert(s[j2].0 == x);
                    }
                }
                assert forall|x: u128| #[trigger] pairs_map(s).dom().contains(x) implies pairs_map(s)[x] == pairs_map(old_s).remove(k)[x] by {
                    let j = choose|j: int| 0 <= j < s.len() && s[j].0 == x;
                    lemma_pairs_map_at(s, j);
                    let j2 = if j < i { j } else { j + 1 };
                    assert(old_s[j2] == s[j]);
                    lemma_pairs_map_at(old_s, j2);
                }
                assert(pairs_map(s) =~= pairs_map(old_s).remove(k));
                self.entries = es;
                Some(v)
            },
            None => {
                assert(pairs_map(old_s) =~= pairs_map(old_s).remove(k));
                None
            },
        }
    }

    /// The key at position `i` of key order.
    pub fn key_at(&self, i: usize) -> (k: u128)
        requires
            i < self.entry_seq().len(),
        ensures
            k == self.entry_seq()[i as int].0,
    {
        self.entries[i].0
    }

    /// The value at position `i` of key order.
    pub fn value_at(&self, i: usize) -> (v: &V)
        requires
            i < self.entry_seq().len(),
        ensures
            *v == self.entry_seq()[i as int].1,
    {
        &self.entries[i].1
    }
}

} // verus!
