use vstd::prelude::*;
use crate::bytes::bytes_eq;

verus! {

/// A finite map from byte-string keys to values, kept as a vector of
/// entries in which no key occurs twice.
#[derive(Debug)]
pub struct VecMap<V> {
    entries: Vec<(Vec<u8>, V)>,
}

/// True when some entry of `s` carries the key `k`.
pub open spec fn has_key<V>(s: Seq<(Vec<u8>, V)>, k: Seq<u8>) -> bool {
    exists|i: int| 0 <= i < s.len() && (#[trigger] s[i]).0@ == k
}

/// No key occurs twice in `s`.
pub open spec fn distinct_keys<V>(s: Seq<(Vec<u8>, V)>) -> bool {
    forall|i: int, j: int|
        0 <= i < s.len() && 0 <= j < s.len() && i != j ==> (#[trigger] s[i]).0@ != (#[trigger] s[j]).0@
}

/// The map denoted by a sequence of entries with distinct keys.
pub open spec fn entries_map<V: DeepView>(s: Seq<(Vec<u8>, V)>) -> Map<Seq<u8>, V::V> {
    Map::new(
        |k: Seq<u8>| has_key(s, k),
        |k: Seq<u8>| s[choose|i: int| 0 <= i < s.len() && (#[trigger] s[i]).0@ == k].1.deep_view(),
    )
}

pub proof fn lemma_entries_map_at<V: DeepView>(s: Seq<(Vec<u8>, V)>, i: int)
    requires
        distinct_keys(s),
        0 <= i < s.len(),
    ensures
        entries_map(s).contains_key(s[i].0@),
        entries_map(s)[s[i].0@] == s[i].1.deep_view(),
{
    let k = s[i].0@;
    assert(has_key(s, k));
    let c = choose|j: int| 0 <= j < s.len() && (#[trigger] s[j]).0@ == k;
    assert(c == i);
}

/// Entries with distinct keys: the map of all of them is the map of all but
/// the last, with the last entry added.
pub proof fn lemma_entries_map_drop_last<V: DeepView>(s: Seq<(Vec<u8>, V)>)
    requires
        distinct_keys(s),
        s.len() > 0,
    ensures
        distinct_keys(s.drop_last()),
        entries_map(s) == entries_map(s.drop_last()).insert(s.last().0@, s.last().1.deep_view()),
{
    let d = s.drop_last();
    let n = s.len() - 1;
    assert forall|i: int, j: int| 0 <= i < d.len() && 0 <= j < d.len() && i != j implies (#[trigger] d[i]).0@ != (#[trigger] d[j]).0@ by {
        assert(d[i] == s[i] && d[j] == s[j]);
    }
    let lhs = entries_map(s);
    let rhs = entries_map(d).insert(s.last().0@, s.last().1.deep_view());
    assert forall|k: Seq<u8>| lhs.contains_key(k) <==> rhs.contains_key(k) by {
        if has_key(s, k) {
            let i = choose|i: int| 0 <= i < s.len() && (#[trigger] s[i]).0@ == k;
            if i < n {
                assert(d[i] == s[i]);
                assert(has_key(d, k));
            }
        }
        if has_key(d, k) {
            let i = choose|i: int| 0 <= i < d.len() && (#[trigger] d[i]).0@ == k;
            assert(s[i] == d[i]);
            assert(has_key(s, k));
        }
        if k == s.last().0@ {
            assert(s[n] == s.last());
            assert(has_key(s, k));
        }
    }
    assert forall|k: Seq<u8>| #[trigger] lhs.contains_key(k) implies lhs[k] == rhs[k] by {
        let i = choose|i: int| 0 <= i < s.len() && (#[trigger] s[i]).0@ == k;
        lemma_entries_map_at(s, i);
        if i == n {
            assert(s[i] == s.last());
        } else {
            assert(d[i] == s[i]);
            lemma_entries_map_at(d, i);
            assert(s[n].0@ != s[i].0@);
        }
    }
    assert(lhs =~= rhs);
}

impl<V: DeepView> VecMap<V> {
    pub closed spec fn entries_seq(&self) -> Seq<(Vec<u8>, V)> {
        self.entries@
    }

    /// The map held is the map of the entries, which are well formed when
    /// their keys are distinct.
    pub proof fn lemma_entries(&self)
        ensures
            self.map() == entries_map(self.entries_seq()),
            self.wf() == distinct_keys(self.entries_seq()),
    {
    }

    /// Well-formedness: keys are pairwise distinct.
    pub closed spec fn wf(&self) -> bool {
        distinct_keys(self.entries@)
    }

    /// The abstract map held.
    pub closed spec fn map(&self) -> Map<Seq<u8>, V::V> {
        entries_map(self.entries@)
    }

    pub fn new() -> (r: Self)
        ensures
            r.wf(),
            r.map() == Map::<Seq<u8>, V::V>::empty(),
    {
        let r = VecMap { entries: Vec::new() };
        assert(r.map() =~= Map::<Seq<u8>, V::V>::empty());
        r
    }

    pub fn len(&self) -> (n: usize)
        requires
            self.wf(),
        ensures
            n == self.map().dom().len(),
    {
        proof {
            let s = self.entries@;
            let f = |e: (Vec<u8>, V)| e.0@;
            let ks = s.map_values(f);
            assert(ks.no_duplicates()) by {
                assert forall|i: int, j: int| 0 <= i < ks.len() && 0 <= j < ks.len() && i != j implies ks[i] != ks[j] by {
                    assert(s[i].0@ != s[j].0@);
                }
            }
            ks.unique_seq_to_set();
            assert(ks.to_set() =~= self.map().dom()) by {
                assert forall|k: Seq<u8>| ks.to_set().contains(k) <==> self.map().dom().contains(k) by {
                    if ks.to_set().contains(k) {
                        let i = choose|i: int| 0 <= i < ks.len() && ks[i] == k;
                        assert(s[i].0@ == k);
                    }
                    if self.map().dom().contains(k) {
                        let i = choose|i: int| 0 <= i < s.len() && (#[trigger] s[i]).0@ == k;
                        assert(ks[i] == k);
                    }
                }
            }
        }
        self.entries.len()
    }

    fn find(&self, key: &[u8]) -> (r: Option<usize>)
        requires
            self.wf(),
        ensures
            match r {
                Some(i) => i < self.entries@.len() && self.entries@[i as int].0@ == key@,
                None => !has_key(self.entries@, key@),
            },
    {
        let mut i: usize = 0;
        while i < self.entries.len()
            invariant
                i <= self.entries@.len(),
                forall|j: int| 0 <= j < i ==> self.entries@[j].0@ != key@,
            decreases self.entries@.len() - i,
        {
            if bytes_eq(self.entries[i].0.as_slice(), key) {
                return Some(i);
            }
            i = i + 1;
        }
        None
    }

    /// Looks a key up.
    pub fn get(&self, key: &[u8]) -> (r: Option<&V>)
        requires
            self.wf(),
        ensures
            r.is_some() == self.map().contains_key(key@),
            r matches Some(v) ==> v.deep_view() == self.map()[key@],
    {
        match self.find(key) {
            Some(i) => {
                proof {
                    lemma_entries_map_at(self.entries@, i as int);
                }
                Some(&self.entries[i].1)
            },
            None => None,
        }
    }

    /// True when the key is present.
    pub fn contains_key(&self, key: &[u8]) -> (r: bool)
        requires
            self.wf(),
        ensures
            r == self.map().contains_key(key@),
    {
        self.find(key).is_some()
    }

    /// Inserts or overwrites the value of a key.
    pub fn insert(&mut self, key: Vec<u8>, value: V)
        requires
            old(self).wf(),
        ensures
            final(self).wf(),
            final(self).map() == old(self).map().insert(key@, value.deep_view()),
    {
        let ghost k = key@;
        let ghost dv = value.deep_view();
        let ghost old_s = self.entries@;
        match self.find(key.as_slice()) {
            Some(i) => {
                self.entries.set(i, (key, value));
                proof {
                    let s = self.entries@;
                    assert(s == old_s.update(i as int, s[i as int]));
                    assert(distinct_keys(s)) by {
                        assert forall|a: int, b: int|
                            0 <= a < s.len() && 0 <= b < s.len() && a != b implies (#[trigger] s[a]).0@ != (#[trigger] s[b]).0@ by {
                            if a != i && b != i {
                                assert(old_s[a].0@ != old_s[b].0@);
                            } else if a == i {
                                assert(old_s[i as int].0@ != old_s[b].0@);
                            } else {
                                assert(old_s[a].0@ != old_s[i as int].0@);
                            }
                        }
                    }
                    assert(entries_map(s) =~= entries_map(old_s).insert(k, dv)) by {
                        assert forall|kk: Seq<u8>| #[trigger] entries_map(s).contains_key(kk) <==> entries_map(old_s).insert(k, dv).contains_key(kk) by {
                            if has_key(s, kk) {
                                let j = choose|j: int| 0 <= j < s.len() && (#[trigger] s[j]).0@ == kk;
                                if j != i {
                                    assert(old_s[j].0@ == kk);
                                }
                            }
                            if has_key(old_s, kk) {
                                let j = choose|j: int| 0 <= j < old_s.len() && (#[trigger] old_s[j]).0@ == kk;
                                if j != i {
                                    assert(s[j].0@ == kk);
                                } else {
                                    assert(s[i as int].0@ == kk);
                                }
                            }
                            if kk == k {
                                assert(s[i as int].0@ == kk);
                            }
                        }
                        assert forall|kk: Seq<u8>| #[trigger] entries_map(s).contains_key(kk) implies entries_map(s)[kk] == entries_map(old_s).insert(k, dv)[kk] by {
                            let j = choose|j: int| 0 <= j < s.len() && (#[trigger] s[j]).0@ == kk;
                            lemma_entries_map_at(s, j);
                            if j != i {
                                lemma_entries_map_at(old_s, j);
                            }
                        }
                    }
                }
            },
            None => {
                self.entries.push((key, value));
                proof {
                    let s = self.entries@;
                    assert(s == old_s.push(s[s.len() - 1]));
                    assert(distinct_keys(s)) by {
                        assert forall|a: int, b: int|
                            0 <= a < s.len() && 0 <= b < s.len() && a != b implies (#[trigger] s[a]).0@ != (#[trigger] s[b]).0@ by {
                            if a < old_s.len() && b < old_s.len() {
                                assert(old_s[a].0@ != old_s[b].0@);
                            } else if a == old_s.len() {
                                assert(old_s[b] == s[b]);
                            } else {
                                assert(old_s[a] == s[a]);
                            }
                        }
                    }
                    assert(entries_map(s) =~= entries_map(old_s).insert(k, dv)) by {
                        let n = old_s.len() as int;
                        assert forall|kk: Seq<u8>| #[trigger] entries_map(s).contains_key(kk) <==> entries_map(old_s).insert(k, dv).contains_key(kk) by {
                            if has_key(s, kk) {
                                let j = choose|j: int| 0 <= j < s.len() && (#[trigger] s[j]).0@ == kk;
                                if j != n {
                                    assert(old_s[j].0@ == kk);
                                }
                            }
                            if has_key(old_s, kk) {
                                let j = choose|j: int| 0 <= j < old_s.len() && (#[trigger] old_s[j]).0@ == kk;
                                assert(s[j].0@ == kk);
                            }
                            if kk == k {
                                assert(s[n].0@ == kk);
                            }
                        }
                        assert forall|kk: Seq<u8>| #[trigger] entries_map(s).contains_key(kk) implies entries_map(s)[kk] == entries_map(old_s).insert(k, dv)[kk] by {
                            let j = choose|j: int| 0 <= j < s.len() && (#[trigger] s[j]).0@ == kk;
                            lemma_entries_map_at(s, j);
                            if j != n {
                                assert(old_s[j] == s[j]);
                                lemma_entries_map_at(old_s, j);
                            }
                        }
                    }
                }
            },
        }
    }

    /// Removes a key, returning its value if it was present.
    pub fn remove(&mut self, key: &[u8]) -> (r: Option<V>)
        requires
            old(self).wf(),
        ensures
            final(self).wf(),
            final(self).map() == old(self).map().remove(key@),
            r.is_some() == old(self).map().contains_key(key@),
            r matches Some(v) ==> v.deep_view() == old(self).map()[key@],
    {
        let ghost old_s = self.entries@;
        match self.find(key) {
            Some(i) => {
                proof {
                    lemma_entries_map_at(old_s, i as int);
                }
                let (_, v) = self.entries.remove(i);
                proof {
                    let s = self.entries@;
                    assert(s =~= old_s.remove(i as int));
                    assert(distinct_keys(s)) by {
                        assert forall|a: int, b: int|
                            0 <= a < s.len() && 0 <= b < s.len() && a != b implies (#[trigger] s[a]).0@ != (#[trigger] s[b]).0@ by {
                            let a2 = if a < i { a } else { a + 1 };
                            let b2 = if b < i { b } else { b + 1 };
                            assert(s[a] == old_s[a2]);
                            assert(s[b] == old_s[b2]);
                        }
                    }
                    assert(entries_map(s) =~= entries_map(old_s).remove(key@)) by {
                        assert forall|kk: Seq<u8>| #[trigger] entries_map(s).contains_key(kk) <==> entries_map(old_s).remove(key@).contains_key(kk) by {
                            if has_key(s, kk) {
                                let j = choose|j: int| 0 <= j < s.len() && (#[trigger] s[j]).0@ == kk;
                                let j2 = if j < i { j } else { j + 1 };
                                assert(s[j] == old_s[j2]);
                                assert(old_s[j2].0@ != old_s[i as int].0@);
                            }
                            if has_key(old_s, kk) && kk != key@ {
                                let j = choose|j: int| 0 <= j < old_s.len() && (#[trigger] old_s[j]).0@ == kk;
                                assert(j != i);
                                let j2 = if j < i { j } else { j - 1 };
                                assert(s[j2] == old_s[j]);
                            }
                        }
                        assert forall|kk: Seq<u8>| #[trigger] entries_map(s).contains_key(kk) implies entries_map(s)[kk] == entries_map(old_s).remove(key@)[kk] by {
                            let j = choose|j: int| 0 <= j < s.len() && (#[trigger] s[j]).0@ == kk;
                            let j2 = if j < i { j } else { j + 1 };
                            assert(s[j] == old_s[j2]);
                            lemma_entries_map_at(s, j);
                            lemma_entries_map_at(old_s, j2);
                        }
                    }
                }
                Some(v)
            },
            None => {
                assert(entries_map(old_s) =~= entries_map(old_s).remove(key@));
                None
            },
        }
    }

    /// Removes every entry.
    pub fn clear(&mut self)
        ensures
            final(self).wf(),
            final(self).map() == Map::<Seq<u8>, V::V>::empty(),
    {
        self.entries.clear();
        assert(self.map() =~= Map::<Seq<u8>, V::V>::empty());
    }

    /// Consumes the map and returns its entries; each key occurs once.
    pub fn into_entries(self) -> (r: Vec<(Vec<u8>, V)>)
        ensures
            r@ == self.entries_seq(),
            self.wf() ==> distinct_keys(r@),
            entries_map(r@) == self.map(),
    {
        self.entries
    }
}

} // verus!
