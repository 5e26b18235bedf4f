use vstd::prelude::*;

verus! {

/// A finite map from `u64` identifiers to values, kept as a vector of
/// entries in which no identifier occurs twice.
pub struct IdMap<V> {
    entries: Vec<(u64, V)>,
}

/// The entry of `s` with identifier `k`, if any; entries are distinct.
pub open spec fn id_entries_map<V>(s: Seq<(u64, V)>) -> Map<u64, V> {
    Map::new(
        |k: u64| exists|i: int| 0 <= i < s.len() && (#[trigger] s[i]).0 == k,
        |k: u64| s[choose|i: int| 0 <= i < s.len() && (#[trigger] s[i]).0 == k].1,
    )
}

/// No identifier occurs twice.
pub open spec fn distinct_ids<V>(s: Seq<(u64, V)>) -> bool {
    forall|i: int, j: int| 0 <= i < s.len() && 0 <= j < s.len() && i != j ==> (#[trigger] s[i]).0 != (#[trigger] s[j]).0
}

proof fn lemma_id_entries_at<V>(s: Seq<(u64, V)>, i: int)
    requires
        distinct_ids(s),
        0 <= i < s.len(),
    ensures
        id_entries_map(s).contains_key(s[i].0),
        id_entries_map(s)[s[i].0] == s[i].1,
{
    let c = choose|j: int| 0 <= j < s.len() && (#[trigger] s[j]).0 == s[i].0;
    assert(c == i);
}

impl<V> IdMap<V> {
    pub closed spec fn wf(&self) -> bool {
        distinct_ids(self.entries@)
    }

    pub closed spec fn map(&self) -> Map<u64, V> {
        id_entries_map(self.entries@)
    }

    pub fn new() -> (r: Self)
        ensures
            r.wf(),
            r.map() == Map::<u64, V>::empty(),
    {
        let r = IdMap { entries: Vec::new() };
        assert(r.map() =~= Map::<u64, V>::empty());
        r
    }

    fn find(&self, id: u64) -> (r: Option<usize>)
        ensures
            match r {
                Some(i) => i < self.entries@.len() && self.entries@[i as int].0 == id,
                None => !self.map().contains_key(id),
            },
    {
        let mut i: usize = 0;
        while i < self.entries.len()
            invariant
                i <= self.entries@.len(),
                forall|j: int| 0 <= j < i ==> self.entries@[j].0 != id,
            decreases self.entries@.len() - i,
        {
            if self.entries[i].0 == id {
                return Some(i);
            }
            i = i + 1;
        }
        None
    }

    pub fn contains_key(&self, id: u64) -> (r: bool)
        requires
            self.wf(),
        ensures
            r == self.map().contains_key(id),
    {
        match self.find(id) {
            Some(i) => {
                proof { lemma_id_entries_at(self.entries@, i as int); }
                true
            },
            None => false,
        }
    }

    pub fn get(&self, id: u64) -> (r: Option<&V>)
        requires
            self.wf(),
        ensures
            r.is_some() == self.map().contains_key(id),
            r matches Some(v) ==> *v == self.map()[id],
    {
        match self.find(id) {
            Some(i) => {
                proof { lemma_id_entries_at(self.entries@, i as int); }
                Some(&self.entries[i].1)
            },
            None => None,
        }
    }

    /// Removes an identifier, returning its value if it was present.
    pub fn remove(&mut self, id: u64) -> (r: Option<V>)
        requires
            old(self).wf(),
        ensures
            final(self).wf(),
            final(self).map() == old(self).map().remove(id),
            r.is_some() == old(self).map().contains_key(id),
            r matches Some(v) ==> v == old(self).map()[id],
    {
        let ghost old_s = self.entries@;
        match self.find(id) {
            Some(i) => {
                proof { lemma_id_entries_at(old_s, i as int); }
                let (_, v) = self.entries.remove(i);
                proof {
                    let s = self.entries@;
                    assert(s =~= old_s.remove(i as int));
                    assert(distinct_ids(s)) by {
                        assert forall|a: int, b: int| 0 <= a < s.len() && 0 <= b < s.len() && a != b implies
                            (#[trigger] s[a]).0 != (#[trigger] s[b]).0 by {
                            let a2 = if a < i { a } else { a + 1 };
                            let b2 = if b < i { b } else { b + 1 };
                            assert(s[a] == old_s[a2]);
                            assert(s[b] == old_s[b2]);
                        }
                    }
                    assert(id_entries_map(s) =~= id_entries_map(old_s).remove(id)) by {
                        assert forall|k: u64| #[trigger] id_entries_map(s).contains_key(k)
                            <==> id_entries_map(old_s).remove(id).contains_key(k) by {
                            if id_entries_map(s).contains_key(k) {
                                let j = choose|j: int| 0 <= j < s.len() && (#[trigger] s[j]).0 == k;
                                let j2 = if j < i { j } else { j + 1 };
                                assert(s[j] == old_s[j2]);
                            }
                            if id_entries_map(old_s).contains_key(k) && k != id {
                                let j = choose|j: int| 0 <= j < old_s.len() && (#[trigger] old_s[j]).0 == k;
                                assert(j != i);
                                let j2 = if j < i { j } else { j - 1 };
                                assert(s[j2] == old_s[j]);
                            }
                        }
                        assert forall|k: u64| #[trigger] id_entries_map(s).contains_key(k) implies
                            id_entries_map(s)[k] == id_entries_map(old_s).remove(id)[k] by {
                            let j = choose|j: int| 0 <= j < s.len() && (#[trigger] s[j]).0 == k;
                            let j2 = if j < i { j } else { j + 1 };
                            assert(s[j] == old_s[j2]);
                            lemma_id_entries_at(s, j);
                            lemma_id_entries_at(old_s, j2);
                        }
                    }
                }
                Some(v)
            },
            None => {
                assert(id_entries_map(old_s) =~= id_entries_map(old_s).remove(id));
                None
            },
        }
    }

    /// Sets the value of an identifier, replacing any earlier value.
    pub fn insert(&mut self, id: u64, value: V)
        requires
            old(self).wf(),
        ensures
            final(self).wf(),
            final(self).map() == old(self).map().insert(id, value),
    {
        let _ = self.remove(id);
        let ghost old_s = self.entries@;
        self.entries.push((id, value));
        proof {
            let s = self.entries@;
            assert(s == old_s.push((id, value)));
            assert(!id_entries_map(old_s).contains_key(id));
            assert(distinct_ids(s)) by {
                assert forall|a: int, b: int| 0 <= a < s.len() && 0 <= b < s.len() && a != b implies
                    (#[trigger] s[a]).0 != (#[trigger] s[b]).0 by {
                    if a < old_s.len() && b < old_s.len() {
                        assert(old_s[a] == s[a] && old_s[b] == s[b]);
                    } else if a == old_s.len() {
                        assert(old_s[b] == s[b]);
                        assert(!(0 <= b < old_s.len() && old_s[b].0 == id));
                    } else {
                        assert(old_s[a] == s[a]);
                        assert(!(0 <= a < old_s.len() && old_s[a].0 == id));
                    }
                }
            }
            let n = old_s.len() as int;
            assert(id_entries_map(s) =~= id_entries_map(old_s).insert(id, value)) by {
                assert forall|k: u64| #[trigger] id_entries_map(s).contains_key(k)
                    <==> id_entries_map(old_s).insert(id, value).contains_key(k) by {
                    if id_entries_map(s).contains_key(k) && k != id {
                        let j = choose|j: int| 0 <= j < s.len() && (#[trigger] s[j]).0 == k;
                        assert(j != n);
                        assert(old_s[j] == s[j]);
                    }
                    if id_entries_map(old_s).contains_key(k) {
                        let j = choose|j: int| 0 <= j < old_s.len() && (#[trigger] old_s[j]).0 == k;
                        assert(s[j] == old_s[j]);
                    }
                    if k == id {
                        assert(s[n].0 == k);
                    }
                }
                assert forall|k: u64| #[trigger] id_entries_map(s).contains_key(k) implies
                    id_entries_map(s)[k] == id_entries_map(old_s).insert(id, value)[k] by {
                    let j = choose|j: int| 0 <= j < s.len() && (#[trigger] s[j]).0 == k;
                    lemma_id_entries_at(s, j);
                    if j != n {
                        assert(old_s[j] == s[j]);
                        lemma_id_entries_at(old_s, j);
                    }
                }
            }
        }
    }

    /// The number of identifiers held.
    pub fn len(&self) -> (r: usize)
        requires
            self.wf(),
        ensures
            r == self.map().dom().len(),
    {
        proof {
            let s = self.entries@;
            let ks = s.map_values(|e: (u64, V)| e.0);
            assert(ks.no_duplicates()) by {
                assert forall|i: int, j: int| 0 <= i < ks.len() && 0 <= j < ks.len() && i != j implies ks[i] != ks[j] by {
                    assert(s[i].0 != s[j].0);
                }
            }
            ks.unique_seq_to_set();
            assert(ks.to_set() =~= self.map().dom()) by {
                assert forall|k: u64| ks.to_set().contains(k) <==> self.map().dom().contains(k) by {
                    if ks.to_set().contains(k) {
                        let i = choose|i: int| 0 <= i < ks.len() && ks[i] == k;
                        assert(s[i].0 == k);
                    }
                    if self.map().dom().contains(k) {
                        let i = choose|i: int| 0 <= i < s.len() && (#[trigger] s[i]).0 == k;
                        assert(ks[i] == k);
                    }
                }
            }
        }
        self.entries.len()
    }
}

} // verus!
