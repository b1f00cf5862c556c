use vstd::prelude::*;
use vstd::map::*;

verus! {

/// The finite map denoted by a sequence of key-value pairs, a later
/// entry overriding an earlier one with the same key.
pub open spec fn map_of<V>(s: Seq<(u64, V)>) -> Map<u64, V>
    decreases s.len(),
{
    if s.len() == 0 {
        Map::empty()
    } else {
        map_of(s.drop_last()).insert(s.last().0, s.last().1)
    }
}

/// Whether the keys of the pair sequence are strictly increasing.
pub open spec fn strictly_ordered<V>(s: Seq<(u64, V)>) -> bool {
    forall|i: int, j: int| 0 <= i < j < s.len() ==> s[i].0 < s[j].0
}

/// Whether no two pairs of the sequence share a key.
pub open spec fn distinct_keys<V>(s: Seq<(u64, V)>) -> bool {
    forall|i: int, j: int| 0 <= i < j < s.len() ==> s[i].0 != s[j].0
}

/// Strictly increasing keys are pairwise distinct.
pub proof fn lemma_strict_distinct<V>(s: Seq<(u64, V)>)
    requires
        strictly_ordered(s),
    ensures
        distinct_keys(s),
{
}

/// What `map_of` holds for a distinct-keyed sequence: each pair is in
/// the map, each key of the map comes from some pair, and the map has
/// exactly one entry per pair.
pub proof fn lemma_map_of_distinct<V>(s: Seq<(u64, V)>)
    requires
        distinct_keys(s),
    ensures
        map_of(s).dom().finite(),
        map_of(s).len() == s.len(),
        forall|i: int|
            0 <= i < s.len() ==> map_of(s).contains_key(#[trigger] s[i].0) && map_of(s)[s[i].0]
                == s[i].1,
        forall|k: u64|
            #[trigger] map_of(s).contains_key(k) ==> exists|i: int|
                0 <= i < s.len() && #[trigger] s[i].0 == k,
    decreases s.len(),
{
    if s.len() > 0 {
        let t = s.drop_last();
        assert(distinct_keys(t)) by {
            assert(forall|i: int, j: int|
                0 <= i < j < t.len() ==> t[i].0 == s[i].0 && t[j].0 == s[j].0);
        }
        lemma_map_of_distinct(t);
        let k = s.last().0;
        assert(!map_of(t).contains_key(k)) by {
            if map_of(t).contains_key(k) {
                let i = choose|i: int| 0 <= i < t.len() && #[trigger] t[i].0 == k;
                assert(s[i].0 == s[s.len() - 1].0);
            }
        }
        assert(forall|i: int| 0 <= i < t.len() ==> t[i] == s[i]);
    }
}

/// A key-ordered mapping from 64-bit keys to values, held as a vector
/// of pairs whose keys strictly ascend; duplicate keys cannot occur by
/// construction.
pub struct OrderedMap<V> {
    entries: Vec<(u64, V)>,
}

impl<V> View for OrderedMap<V> {
    type V = Map<u64, V>;

    closed spec fn view(&self) -> Map<u64, V> {
        map_of(self.entries@)
    }
}

impl<V> OrderedMap<V> {
    /// The key-value pairs in their stored, key-ascending order.
    pub closed spec fn kv(self) -> Seq<(u64, V)> {
        self.entries@
    }

    /// Well-formed: keys strictly ascend, hence are unique.
    pub open spec fn wf(self) -> bool {
        strictly_ordered(self.kv())
    }

    /// The map view is exactly the map denoted by the pair sequence.
    pub proof fn lemma_view_def(self)
        ensures
            self@ == map_of(self.kv()),
    {
    }

    /// How the map view and the pair sequence correspond.
    pub proof fn lemma_view(self)
        requires
            self.wf(),
        ensures
            self@.dom().finite(),
            self@.len() == self.kv().len(),
            forall|i: int|
                0 <= i < self.kv().len() ==> self@.contains_key(#[trigger] self.kv()[i].0)
                    && self@[self.kv()[i].0] == self.kv()[i].1,
            forall|k: u64|
                #[trigger] self@.contains_key(k) ==> exists|i: int|
                    0 <= i < self.kv().len() && #[trigger] self.kv()[i].0 == k,
    {
        lemma_strict_distinct(self.kv());
        lemma_map_of_distinct(self.kv());
    }

    /// An empty mapping.
    pub fn new() -> (r: Self)
        ensures
            r.wf(),
            r@ == Map::<u64, V>::empty(),
            r.kv() == Seq::<(u64, V)>::empty(),
    {
        let r = OrderedMap { entries: Vec::new() };
        proof {
            assert(r.kv() =~= Seq::<(u64, V)>::empty());
        }
        r
    }

    /// The number of entries.
    pub fn len(&self) -> (r: usize)
        ensures
            r == self.kv().len(),
    {
        self.entries.len()
    }

    /// Whether the mapping has no entries.
    pub fn is_empty(&self) -> (r: bool)
        ensures
            r == (self.kv().len() == 0),
    {
        self.entries.len() == 0
    }

    /// The pair at the given position in key order.
    pub fn entry_at(&self, i: usize) -> (r: &(u64, V))
        requires
            i < self.kv().len(),
        ensures
            *r == self.kv()[i as int],
    {
        &self.entries[i]
    }

    /// Looks a key up.
    pub fn get(&self, key: u64) -> (r: Option<&V>)
        requires
            self.wf(),
        ensures
            match r {
                Some(v) => self@.contains_key(key) && *v == self@[key],
                None => !self@.contains_key(key),
            },
    {
        proof {
            self.lemma_view();
        }
        let n = self.entries.len();
        let mut i: usize = 0;
        while i < n && self.entries[i].0 != key
            invariant
                0 <= i <= n,
                n == self.kv().len(),
                forall|j: int| 0 <= j < i ==> self.kv()[j].0 != key,
            decreases n - i,
        {
            i = i + 1;
        }
        if i < n {
            Some(&self.entries[i].1)
        } else {
            proof {
                if self@.contains_key(key) {
                    let j = choose|j: int|
                        0 <= j < self.kv().len() && #[trigger] self.kv()[j].0 == key;
                }
            }
            None
        }
    }

    /// Whether the key is present.
    pub fn contains_key(&self, key: u64) -> (r: bool)
        requires
            self.wf(),
        ensures
            r == self@.contains_key(key),
    {
        match self.get(key) {
            Some(_) => true,
            None => false,
        }
    }

    /// Inserts a pair, keeping the keys strictly ascending; an entry
    /// already under that key is replaced.
    #[verifier::rlimit(50)]
    pub fn insert(&mut self, key: u64, value: V)
        requires
            old(self).wf(),
        ensures
            final(self).wf(),
            final(self)@ == old(self)@.insert(key, value),
    {
        proof {
            old(self).lemma_view();
        }
        let ghost s0 = self.entries@;
        let n = self.entries.len();
        let mut i: usize = 0;
        while i < n && self.entries[i].0 < key
            invariant
                0 <= i <= n,
                self.entries@ == s0,
                n == s0.len(),
                forall|j: int| 0 <= j < i ==> s0[j].0 < key,
            decreases n - i,
        {
            i = i + 1;
        }
        if i < n && self.entries[i].0 == key {
            self.entries.remove(i);
            self.entries.insert(i, (key, value));
            proof {
                vstd::seq_lib::lemma_update_is_remove_insert(s0, i as int, (key, value));
                assert(self.entries@ =~= s0.update(i as int, (key, value)));
                let s1 = self.entries@;
                assert forall|a: int, b: int| 0 <= a < b < s1.len() implies s1[a].0 < s1[b].0 by {
                    assert(strictly_ordered(s0));
                    if a != i && b != i {
                        assert(s0[a].0 < s0[b].0);
                    } else if a == i {
                        assert(s0[a].0 == key);
                    } else {
                        assert(s0[b].0 == key);
                    }
                }
                self.prove_insert_view(s0, i as int, key, value);
            }
        } else {
            self.entries.insert(i, (key, value));
            proof {
                s0.insert_ensures(i as int, (key, value));
                let s1 = self.entries@;
                assert forall|a: int, b: int| 0 <= a < b < s1.len() implies s1[a].0 < s1[b].0 by {
                    assert(strictly_ordered(s0));
                    if a < i && b == i {
                        assert(s1[a].0 == s0[a].0 && s1[b].0 == key);
                    } else if a == i && b > i {
                        assert(s1[b].0 == s0[b - 1].0);
                        assert(s0[b - 1].0 >= key && s0[b - 1].0 != key);
                    } else if a < i && b > i {
                        assert(s1[a].0 == s0[a].0 && s1[b].0 == s0[b - 1].0);
                        assert(s0[b - 1].0 >= key);
                    } else if a > i && b > i {
                        assert(s1[a].0 == s0[a - 1].0 && s1[b].0 == s0[b - 1].0);
                    } else {
                        assert(s1[a].0 == s0[a].0 && s1[b].0 == s0[b].0);
                    }
                }
                self.prove_insert_view(s0, i as int, key, value);
            }
        }
    }

    /// Connects the updated pair sequence to the map-level insert.
    #[verifier::rlimit(50)]
    proof fn prove_insert_view(self, s0: Seq<(u64, V)>, i: int, key: u64, value: V)
        requires
            strictly_ordered(s0),
            strictly_ordered(self.kv()),
            0 <= i <= s0.len(),
            i < self.kv().len(),
            self.kv().len() >= s0.len(),
            self.kv().len() <= s0.len() + 1,
            self.kv().len() == s0.len() ==> s0[i].0 == key,
            self.kv()[i] == (key, value),
            forall|j: int| 0 <= j < i ==> self.kv()[j] == s0[j],
            forall|j: int|
                i < j < self.kv().len() ==> self.kv()[j] == s0[j - (self.kv().len() - s0.len())],
        ensures
            self@ == map_of(s0).insert(key, value),
    {
        let s1 = self.kv();
        let d = s1.len() - s0.len();
        lemma_strict_distinct(s0);
        lemma_map_of_distinct(s0);
        lemma_strict_distinct(s1);
        lemma_map_of_distinct(s1);
        assert(s1[i].0 == key && s1[i].1 == value);
        let target = map_of(s0).insert(key, value);
        assert_maps_equal!(map_of(s1), target, k => {
            if map_of(s1).contains_key(k) {
                let idx = choose|idx: int| 0 <= idx < s1.len() && #[trigger] s1[idx].0 == k;
                assert(map_of(s1)[k] == s1[idx].1);
                if idx == i {
                    assert(map_of(s1)[k] == value);
                } else if idx < i {
                    assert(s1[idx] == s0[idx]);
                    assert(s1[idx].0 < s1[i].0);
                    assert(k != key);
                    assert(map_of(s0).contains_key(k) && map_of(s0)[k] == s0[idx].1);
                } else {
                    assert(0 <= idx - d < s0.len());
                    assert(s1[idx] == s0[idx - d]);
                    assert(s0[idx - d].0 == k);
                    assert(s1[i].0 < s1[idx].0);
                    assert(k != key);
                    assert(map_of(s0).contains_key(k) && map_of(s0)[k] == s0[idx - d].1);
                }
            }
            if target.contains_key(k) {
                if k == key {
                    assert(s1[i].0 == key);
                    assert(map_of(s1).contains_key(k));
                } else {
                    assert(map_of(s0).contains_key(k));
                    let j = choose|j: int| 0 <= j < s0.len() && #[trigger] s0[j].0 == k;
                    if j < i {
                        assert(s1[j] == s0[j]);
                        assert(map_of(s1).contains_key(k) && map_of(s1)[k] == s1[j].1);
                    } else {
                        assert(j + d < s1.len() && i < j + d);
                        assert(s1[j + d] == s0[j]);
                        assert(map_of(s1).contains_key(k) && map_of(s1)[k] == s1[j + d].1);
                    }
                }
            }
        });
    }
}

} // verus!
