//! A small map keyed by strings that keeps its entries in insertion order.
//! It stands where a hash map keyed by `String` would: lookups, inserts and
//! removals are proved against a mathematical map, and walks follow the
//! order in which keys were first inserted.
use vstd::prelude::*;
use crate::text::chars_of;
use crate::text::chars_eq;

verus! {

/// Each key occurs at most once among the pairs.
pub open spec fn keys_unique<V>(s: Seq<(Seq<char>, V)>) -> bool {
    forall|i: int, j: int|
        0 <= i < s.len() && 0 <= j < s.len() && i != j ==> #[trigger] s[i].0 != #[trigger] s[j].0
}

/// Some pair carries the key `k`.
pub open spec fn has_key<V>(s: Seq<(Seq<char>, V)>, k: Seq<char>) -> bool {
    exists|i: int| 0 <= i < s.len() && #[trigger] s[i].0 == k
}

/// The value stored under `k` (meaningful when `has_key(s, k)`).
pub open spec fn value_of<V>(s: Seq<(Seq<char>, V)>, k: Seq<char>) -> V {
    s[choose|i: int| 0 <= i < s.len() && #[trigger] s[i].0 == k].1
}

/// The mathematical map described by a list of pairs with distinct keys.
pub open spec fn pairs_to_map<V>(s: Seq<(Seq<char>, V)>) -> Map<Seq<char>, V> {
    Map::new(|k: Seq<char>| has_key(s, k), |k: Seq<char>| value_of(s, k))
}

/// With distinct keys, the pair at index `i` is the one found for its key.
pub proof fn lemma_value_at<V>(s: Seq<(Seq<char>, V)>, i: int)
    requires
        keys_unique(s),
        0 <= i < s.len(),
    ensures
        has_key(s, s[i].0),
        value_of(s, s[i].0) == s[i].1,
{
    let k = s[i].0;
    assert(has_key(s, k));
    let j = choose|j: int| 0 <= j < s.len() && #[trigger] s[j].0 == k;
    assert(s[j].0 == s[i].0);
    assert(i == j);
}

/// The (key characters, value) view of stored entries.
pub open spec fn pairs_of<V>(v: Seq<(String, V)>) -> Seq<(Seq<char>, V)> {
    v.map_values(|e: (String, V)| (e.0@, e.1))
}

/// A map from strings to values, in insertion order.
pub struct StrMap<V> {
    entries: Vec<(String, V)>,
}

impl<V> View for StrMap<V> {
    type V = Map<Seq<char>, V>;

    /// The map that this value represents; the order of insertion, which
    /// `pairs` keeps, is left out.
    open spec fn view(&self) -> Map<Seq<char>, V> {
        pairs_to_map(self.pairs())
    }
}

impl<V> StrMap<V> {
    /// The entries as (key characters, value) pairs, in insertion order.
    pub closed spec fn pairs(&self) -> Seq<(Seq<char>, V)> {
        pairs_of(self.entries@)
    }

    #[verifier::type_invariant]
    closed spec fn wf(&self) -> bool {
        keys_unique(self.pairs())
    }

    /// The empty map.
    pub fn new() -> (m: Self)
        ensures
            m.pairs() == Seq::<(Seq<char>, V)>::empty(),
            m.view() == Map::<Seq<char>, V>::empty(),
    {
        let m = StrMap { entries: Vec::new() };
        assert(m.pairs() =~= Seq::<(Seq<char>, V)>::empty());
        assert(m.view() =~= Map::<Seq<char>, V>::empty());
        m
    }

    /// The number of keys.
    pub fn len(&self) -> (n: usize)
        ensures
            n == self.pairs().len(),
    {
        self.entries.len()
    }

    /// Whether the map holds no key.
    pub fn is_empty(&self) -> (b: bool)
        ensures
            b == (self.pairs().len() == 0),
    {
        self.entries.len() == 0
    }

    /// The position of `key`, if it is present.
    pub fn index_of(&self, key: &str) -> (r: Option<usize>)
        ensures
            match r {
                Some(i) => i < self.pairs().len() && self.pairs()[i as int].0 == key@,
                None => !has_key(self.pairs(), key@),
            },
            r is Some <==> self.view().dom().contains(key@),
    {
        let k = chars_of(key);
        let mut i: usize = 0;
        while i < self.entries.len()
            invariant
                i <= self.entries.len(),
                k@ == key@,
                forall|j: int| 0 <= j < i ==> #[trigger] self.pairs()[j].0 != key@,
            decreases self.entries.len() - i,
        {
            let c = chars_of(self.entries[i].0.as_str());
            if chars_eq(&c, &k) {
                return Some(i);
            }
            i = i + 1;
        }
        None
    }

    /// Whether `key` is present.
    pub fn contains_key(&self, key: &str) -> (b: bool)
        ensures
            b == self.view().dom().contains(key@),
    {
        self.index_of(key).is_some()
    }

    /// The value stored under `key`.
    pub fn get(&self, key: &str) -> (r: Option<&V>)
        ensures
            match r {
                Some(v) => self.view().dom().contains(key@) && *v == self.view()[key@],
                None => !self.view().dom().contains(key@),
            },
    {
        proof { use_type_invariant(self); }
        match self.index_of(key) {
            Some(i) => {
                proof { lemma_value_at(self.pairs(), i as int); }
                Some(&self.entries[i].1)
            }
            None => None,
        }
    }

    /// The pair at position `i`.
    pub fn entry_at(&self, i: usize) -> (r: (&String, &V))
        requires
            i < self.pairs().len(),
        ensures
            r.0@ == self.pairs()[i as int].0,
            *r.1 == self.pairs()[i as int].1,
            self.view().dom().contains(r.0@),
            self.view()[r.0@] == *r.1,
            forall|j: int| 0 <= j < self.pairs().len() && j != i ==> #[trigger] self.pairs()[j].0 != r.0@,
    {
        proof {
            use_type_invariant(self);
            lemma_value_at(self.pairs(), i as int);
        }
        (&self.entries[i].0, &self.entries[i].1)
    }

    /// Stores `value` under `key`: an existing key keeps its position, a new
    /// key goes last.
    pub fn insert(&mut self, key: String, value: V)
        ensures
            final(self).view() == old(self).view().insert(key@, value),
            old(self).view().dom().contains(key@) ==> final(self).pairs().len() == old(self).pairs().len(),
            !old(self).view().dom().contains(key@) ==> final(self).pairs() == old(self).pairs().push((key@, value)),
    {
        proof { use_type_invariant(&*self); }
        let ghost old_pairs = self.pairs();
        match self.index_of(key.as_str()) {
            Some(i) => {
                let mut entries: Vec<(String, V)> = Vec::new();
                std::mem::swap(&mut entries, &mut self.entries);
                entries.set(i, (key, value));
                proof {
                    let np = pairs_of(entries@);
                    assert(np =~= old_pairs.update(i as int, (key@, value)));
                    assert(keys_unique(np)) by {
                        assert forall|a: int, b: int|
                            0 <= a < np.len() && 0 <= b < np.len() && a != b implies #[trigger] np[a].0 != #[trigger] np[b].0 by {
                            if a != i && b != i {
                                assert(np[a] == old_pairs[a] && np[b] == old_pairs[b]);
                            } else if a == i {
                                assert(old_pairs[a].0 == np[a].0);
                                assert(np[b] == old_pairs[b]);
                            } else {
                                assert(old_pairs[b].0 == np[b].0);
                                assert(np[a] == old_pairs[a]);
                            }
                        }
                    }
                    assert forall|k: Seq<char>| has_key(np, k) == has_key(old_pairs, k) by {
                        if has_key(np, k) {
                            let a = choose|a: int| 0 <= a < np.len() && #[trigger] np[a].0 == k;
                            assert(old_pairs[a].0 == k);
                        }
                        if has_key(old_pairs, k) {
                            let a = choose|a: int| 0 <= a < old_pairs.len() && #[trigger] old_pairs[a].0 == k;
                            assert(np[a].0 == k);
                        }
                    }
                    assert forall|k: Seq<char>| #[trigger] has_key(np, k) implies value_of(np, k)
                        == (if k == key@ { value } else { value_of(old_pairs, k) }) by {
                        let a = choose|a: int| 0 <= a < np.len() && #[trigger] np[a].0 == k;
                        lemma_value_at(np, a);
                        if k != key@ {
                            assert(a != i);
                            lemma_value_at(old_pairs, a);
                        } else {
                            lemma_value_at(np, i as int);
                        }
                    }
                    assert(pairs_to_map(np) =~= pairs_to_map(old_pairs).insert(key@, value));
                }
                self.entries = entries;
            }
            None => {
                let ghost kv = key@;
                let mut entries: Vec<(String, V)> = Vec::new();
                std::mem::swap(&mut entries, &mut self.entries);
                entries.push((key, value));
                proof {
                    let np = pairs_of(entries@);
                    assert(np =~= old_pairs.push((kv, value)));
                    assert(keys_unique(np)) by {
                        assert forall|a: int, b: int|
                            0 <= a < np.len() && 0 <= b < np.len() && a != b implies #[trigger] np[a].0 != #[trigger] np[b].0 by {
                            if a < old_pairs.len() && b < old_pairs.len() {
                                assert(np[a] == old_pairs[a] && np[b] == old_pairs[b]);
                            } else if a < old_pairs.len() {
                                assert(np[a] == old_pairs[a]);
                            } else {
                                assert(np[b] == old_pairs[b]);
                            }
                        }
                    }
                    assert forall|k: Seq<char>| has_key(np, k) == (has_key(old_pairs, k) || k == kv) by {
                        if has_key(np, k) {
                            let a = choose|a: int| 0 <= a < np.len() && #[trigger] np[a].0 == k;
                            if a < old_pairs.len() {
                                assert(old_pairs[a].0 == k);
                            }
                        }
                        if has_key(old_pairs, k) {
                            let a = choose|a: int| 0 <= a < old_pairs.len() && #[trigger] old_pairs[a].0 == k;
                            assert(np[a].0 == k);
                        }
                        if k == kv {
                            assert(np[old_pairs.len() as int].0 == k);
                        }
                    }
                    assert forall|k: Seq<char>| #[trigger] has_key(np, k) implies value_of(np, k)
                        == (if k == kv { value } else { value_of(old_pairs, k) }) by {
                        let a = choose|a: int| 0 <= a < np.len() && #[trigger] np[a].0 == k;
                        lemma_value_at(np, a);
                        if a < old_pairs.len() {
                            lemma_value_at(old_pairs, a);
                        }
                    }
                    assert(pairs_to_map(np) =~= pairs_to_map(old_pairs).insert(kv, value));
                }
                self.entries = entries;
            }
        }
    }

    /// Removes `key` and returns its value, if it was present; the other
    /// entries keep their order.
    pub fn remove(&mut self, key: &str) -> (r: Option<V>)
        ensures
            final(self).view() == old(self).view().remove(key@),
            match r {
                Some(v) => old(self).view().dom().contains(key@) && v == old(self).view()[key@],
                None => !old(self).view().dom().contains(key@),
            },
    {
        proof { use_type_invariant(&*self); }
        let ghost old_pairs = self.pairs();
        match self.index_of(key) {
            Some(i) => {
                let mut entries: Vec<(String, V)> = Vec::new();
                std::mem::swap(&mut entries, &mut self.entries);
                let e = entries.remove(i);
                proof {
                    let np = pairs_of(entries@);
                    assert(np =~= old_pairs.remove(i as int));
                    lemma_value_at(old_pairs, i as int);
                    assert(keys_unique(np)) by {
                        assert forall|a: int, b: int|
                            0 <= a < np.len() && 0 <= b < np.len() && a != b implies #[trigger] np[a].0 != #[trigger] np[b].0 by {
                            let a2 = if a < i { a } else { a + 1 };
                            let b2 = if b < i { b } else { b + 1 };
                            assert(np[a] == old_pairs[a2] && np[b] == old_pairs[b2]);
                        }
                    }
                    assert forall|k: Seq<char>| has_key(np, k) == (has_key(old_pairs, k) && k != key@) by {
                        if has_key(np, k) {
                            let a = choose|a: int| 0 <= a < np.len() && #[trigger] np[a].0 == k;
                            let a2 = if a < i { a } else { a + 1 };
                            assert(old_pairs[a2].0 == k);
                            assert(a2 != i);
                        }
                        if has_key(old_pairs, k) && k != key@ {
                            let a = choose|a: int| 0 <= a < old_pairs.len() && #[trigger] old_pairs[a].0 == k;
                            assert(a != i);
                            let a3 = if a < i { a } else { a - 1 };
                            assert(np[a3].0 == k);
                        }
                    }
                    assert forall|k: Seq<char>| #[trigger] has_key(np, k) implies value_of(np, k)
                        == value_of(old_pairs, k) by {
                        let a = choose|a: int| 0 <= a < np.len() && #[trigger] np[a].0 == k;
                        lemma_value_at(np, a);
                        let a2 = if a < i { a } else { a + 1 };
                        lemma_value_at(old_pairs, a2);
                    }
                    assert(pairs_to_map(np) =~= pairs_to_map(old_pairs).remove(key@));
                }
                self.entries = entries;
                Some(e.1)
            }
            None => {
                assert(pairs_to_map(old_pairs) =~= pairs_to_map(old_pairs).remove(key@));
                None
            }
        }
    }
}

} // verus!
