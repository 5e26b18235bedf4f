use vstd::prelude::*;
use crate::client_id::str_eq;

verus! {

/// How many holders each string key has, for keys with at least one holder;
/// kept as a vector of entries in which no key occurs twice.
pub struct KeyCounts {
    entries: Vec<(String, usize)>,
}

/// The count of each key of `s`; keys are distinct.
pub open spec fn key_counts_map(s: Seq<(String, usize)>) -> Map<Seq<char>, nat> {
    Map::new(
        |k: Seq<char>| exists|i: int| 0 <= i < s.len() && (#[trigger] s[i]).0@ == k,
        |k: Seq<char>| s[choose|i: int| 0 <= i < s.len() && (#[trigger] s[i]).0@ == k].1 as nat,
    )
}

/// No key occurs twice, and every count is positive.
pub open spec fn key_counts_wf(s: Seq<(String, usize)>) -> bool {
    &&& forall|i: int, j: int| 0 <= i < s.len() && 0 <= j < s.len() && i != j ==> (#[trigger] s[i]).0@ != (#[trigger] s[j]).0@
    &&& forall|i: int| 0 <= i < s.len() ==> (#[trigger] s[i]).1 >= 1
}

proof fn lemma_key_counts_at(s: Seq<(String, usize)>, i: int)
    requires
        key_counts_wf(s),
        0 <= i < s.len(),
    ensures
        key_counts_map(s).contains_key(s[i].0@),
        key_counts_map(s)[s[i].0@] == s[i].1 as nat,
{
    let c = choose|j: int| 0 <= j < s.len() && (#[trigger] s[j]).0@ == s[i].0@;
    assert(c == i);
}

impl KeyCounts {
    pub closed spec fn wf(&self) -> bool {
        key_counts_wf(self.entries@)
    }

    pub closed spec fn map(&self) -> Map<Seq<char>, nat> {
        key_counts_map(self.entries@)
    }

    /// Every key held has at least one holder.
    pub proof fn lemma_counts_positive(&self)
        requires
            self.wf(),
        ensures
            forall|k: Seq<char>| #[trigger] self.map().contains_key(k) ==> self.map()[k] >= 1,
    {
        assert forall|k: Seq<char>| #[trigger] self.map().contains_key(k) implies self.map()[k] >= 1 by {
            let i = choose|i: int| 0 <= i < self.entries@.len() && (#[trigger] self.entries@[i]).0@ == k;
            lemma_key_counts_at(self.entries@, i);
        }
    }

    pub fn new() -> (r: Self)
        ensures
            r.wf(),
            r.map() == Map::<Seq<char>, nat>::empty(),
    {
        let r = KeyCounts { entries: Vec::new() };
        assert(r.map() =~= Map::<Seq<char>, nat>::empty());
        r
    }

    fn find(&self, key: &str) -> (r: Option<usize>)
        ensures
            match r {
                Some(i) => i < self.entries@.len() && self.entries@[i as int].0@ == key@,
                None => !self.map().contains_key(key@),
            },
    {
        let mut i: usize = 0;
        while i < self.entries.len()
            invariant
                i <= self.entries@.len(),
                forall|j: int| 0 <= j < i ==> self.entries@[j].0@ != key@,
            decreases self.entries@.len() - i,
        {
            if str_eq(self.entries[i].0.as_str(), key) {
                return Some(i);
            }
            i = i + 1;
        }
        None
    }

    /// The count of a key; zero for a key without holders.
    pub fn count(&self, key: &str) -> (r: usize)
        requires
            self.wf(),
        ensures
            self.map().contains_key(key@) ==> r == self.map()[key@],
            !self.map().contains_key(key@) ==> r == 0,
    {
        match self.find(key) {
            Some(i) => {
                proof { lemma_key_counts_at(self.entries@, i as int); }
                self.entries[i].1
            },
            None => 0,
        }
    }

    /// One more holder of `key`; its count starts at one.
    pub fn acquire(&mut self, key: String)
        requires
            old(self).wf(),
            old(self).map().contains_key(key@) ==> old(self).map()[key@] < usize::MAX,
        ensures
            final(self).wf(),
            final(self).map() == old(self).map().insert(key@,
                if old(self).map().contains_key(key@) { old(self).map()[key@] + 1 } else { 1 }),
    {
        let ghost k = key@;
        let ghost old_s = self.entries@;
        match self.find(key.as_str()) {
            Some(i) => {
                proof { lemma_key_counts_at(old_s, i as int); }
                let c = self.entries[i].1;
                self.entries.set(i, (key, c + 1));
                proof {
                    let s = self.entries@;
                    assert(key_counts_wf(s)) by {
                        assert forall|a: int, b: int| 0 <= a < s.len() && 0 <= b < s.len() && a != b implies
                            (#[trigger] s[a]).0@ != (#[trigger] s[b]).0@ by {
                            assert(old_s[a].0@ == s[a].0@ && old_s[b].0@ == s[b].0@);
                        }
                    }
                    assert(key_counts_map(s) =~= key_counts_map(old_s).insert(k, (c + 1) as nat)) by {
                        assert forall|kk: Seq<char>| #[trigger] key_counts_map(s).contains_key(kk)
                            <==> key_counts_map(old_s).insert(k, (c + 1) as nat).contains_key(kk) by {
                            if key_counts_map(s).contains_key(kk) {
                                let j = choose|j: int| 0 <= j < s.len() && (#[trigger] s[j]).0@ == kk;
                                assert(old_s[j].0@ == kk);
                            }
                            if key_counts_map(old_s).contains_key(kk) {
                                let j = choose|j: int| 0 <= j < old_s.len() && (#[trigger] old_s[j]).0@ == kk;
                                assert(s[j].0@ == kk);
                            }
                        }
                        assert forall|kk: Seq<char>| #[trigger] key_counts_map(s).contains_key(kk) implies
                            key_counts_map(s)[kk] == key_counts_map(old_s).insert(k, (c + 1) as nat)[kk] by {
                            let j = choose|j: int| 0 <= j < s.len() && (#[trigger] s[j]).0@ == kk;
                            lemma_key_counts_at(s, j);
                            lemma_key_counts_at(old_s, j);
                        }
                    }
                }
            },
            None => {
                self.entries.push((key, 1));
                proof {
                    let s = self.entries@;
                    let n = old_s.len() as int;
                    assert(s == old_s.push(s[n]));
                    assert(key_counts_wf(s)) by {
                        assert forall|a: int, b: int| 0 <= a < s.len() && 0 <= b < s.len() && a != b implies
                            (#[trigger] s[a]).0@ != (#[trigger] s[b]).0@ by {
                            if a < n && b < n {
                                assert(old_s[a] == s[a] && old_s[b] == s[b]);
                            } else if a == n {
                                assert(old_s[b] == s[b]);
                                assert(!(0 <= b < n && old_s[b].0@ == k));
                            } else {
                                assert(old_s[a] == s[a]);
                                assert(!(0 <= a < n && old_s[a].0@ == k));
                            }
                        }
                    }
                    assert(key_counts_map(s) =~= key_counts_map(old_s).insert(k, 1)) by {
                        assert forall|kk: Seq<char>| #[trigger] key_counts_map(s).contains_key(kk)
                            <==> key_counts_map(old_s).insert(k, 1).contains_key(kk) by {
                            if key_counts_map(s).contains_key(kk) && kk != k {
                                let j = choose|j: int| 0 <= j < s.len() && (#[trigger] s[j]).0@ == kk;
                                assert(j != n);
                                assert(old_s[j] == s[j]);
                            }
                            if key_counts_map(old_s).contains_key(kk) {
                                let j = choose|j: int| 0 <= j < old_s.len() && (#[trigger] old_s[j]).0@ == kk;
                                assert(s[j] == old_s[j]);
                            }
                            if kk == k {
                                assert(s[n].0@ == kk);
                            }
                        }
                        assert forall|kk: Seq<char>| #[trigger] key_counts_map(s).contains_key(kk) implies
                            key_counts_map(s)[kk] == key_counts_map(old_s).insert(k, 1)[kk] by {
                            let j = choose|j: int| 0 <= j < s.len() && (#[trigger] s[j]).0@ == kk;
                            lemma_key_counts_at(s, j);
                            if j != n {
                                assert(old_s[j] == s[j]);
                                lemma_key_counts_at(old_s, j);
                            }
                        }
                    }
                }
            },
        }
    }

    /// One holder of `key` fewer; the key goes when its last holder does.
    pub fn release(&mut self, key: &str)
        requires
            old(self).wf(),
            old(self).map().contains_key(key@),
        ensures
            final(self).wf(),
            old(self).map()[key@] == 1 ==> final(self).map() == old(self).map().remove(key@),
            old(self).map()[key@] > 1 ==> final(self).map() == old(self).map().insert(key@, (old(self).map()[key@] - 1) as nat),
    {
        let ghost k = key@;
        let ghost old_s = self.entries@;
        let i = match self.find(key) {
            Some(i) => i,
            None => {
                assert(false);
                return;
            },
        };
        proof { lemma_key_counts_at(old_s, i as int); }
        let c = self.entries[i].1;
        if c > 1 {
            let name = self.entries[i].0.clone();
            self.entries.set(i, (name, c - 1));
            proof {
                let s = self.entries@;
                assert(key_counts_wf(s)) by {
                    assert forall|a: int, b: int| 0 <= a < s.len() && 0 <= b < s.len() && a != b implies
                        (#[trigger] s[a]).0@ != (#[trigger] s[b]).0@ by {
                        assert(old_s[a].0@ == s[a].0@ && old_s[b].0@ == s[b].0@);
                    }
                }
                assert(key_counts_map(s) =~= key_counts_map(old_s).insert(k, (c - 1) as nat)) by {
                    assert forall|kk: Seq<char>| #[trigger] key_counts_map(s).contains_key(kk)
                        <==> key_counts_map(old_s).insert(k, (c - 1) as nat).contains_key(kk) by {
                        if key_counts_map(s).contains_key(kk) {
                            let j = choose|j: int| 0 <= j < s.len() && (#[trigger] s[j]).0@ == kk;
                            assert(old_s[j].0@ == kk);
                        }
                        if key_counts_map(old_s).contains_key(kk) {
                            let j = choose|j: int| 0 <= j < old_s.len() && (#[trigger] old_s[j]).0@ == kk;
                            assert(s[j].0@ == kk);
                        }
                    }
                    assert forall|kk: Seq<char>| #[trigger] key_counts_map(s).contains_key(kk) implies
                        key_counts_map(s)[kk] == key_counts_map(old_s).insert(k, (c - 1) as nat)[kk] by {
                        let j = choose|j: int| 0 <= j < s.len() && (#[trigger] s[j]).0@ == kk;
                        lemma_key_counts_at(s, j);
                        lemma_key_counts_at(old_s, j);
                    }
                }
            }
        } else {
            let _ = self.entries.remove(i);
            proof {
                let s = self.entries@;
                assert(s =~= old_s.remove(i as int));
                assert(key_counts_wf(s)) by {
                    assert forall|a: int, b: int| 0 <= a < s.len() && 0 <= b < s.len() && a != b implies
                        (#[trigger] s[a]).0@ != (#[trigger] s[b]).0@ by {
                        let a2 = if a < i { a } else { a + 1 };
                        let b2 = if b < i { b } else { b + 1 };
                        assert(s[a] == old_s[a2]);
                        assert(s[b] == old_s[b2]);
                    }
                    assert forall|a: int| 0 <= a < s.len() implies (#[trigger] s[a]).1 >= 1 by {
                        let a2 = if a < i { a } else { a + 1 };
                        assert(s[a] == old_s[a2]);
                    }
                }
                assert(key_counts_map(s) =~= key_counts_map(old_s).remove(k)) by {
                    assert forall|kk: Seq<char>| #[trigger] key_counts_map(s).contains_key(kk)
                        <==> key_counts_map(old_s).remove(k).contains_key(kk) by {
                        if key_counts_map(s).contains_key(kk) {
                            let j = choose|j: int| 0 <= j < s.len() && (#[trigger] s[j]).0@ == kk;
                            let j2 = if j < i { j } else { j + 1 };
                            assert(s[j] == old_s[j2]);
                        }
                        if key_counts_map(old_s).contains_key(kk) && kk != k {
                            let j = choose|j: int| 0 <= j < old_s.len() && (#[trigger] old_s[j]).0@ == kk;
                            assert(j != i);
                            let j2 = if j < i { j } else { j - 1 };
                            assert(s[j2] == old_s[j]);
                        }
                    }
                    assert forall|kk: Seq<char>| #[trigger] key_counts_map(s).contains_key(kk) implies
                        key_counts_map(s)[kk] == key_counts_map(old_s).remove(k)[kk] by {
                        let j = choose|j: int| 0 <= j < s.len() && (#[trigger] s[j]).0@ == kk;
                        let j2 = if j < i { j } else { j + 1 };
                        assert(s[j] == old_s[j2]);
                        lemma_key_counts_at(s, j);
                        lemma_key_counts_at(old_s, j2);
                    }
                }
            }
        }
    }

    /// The number of keys with holders.
    pub fn len(&self) -> (r: usize)
        requires
            self.wf(),
        ensures
            r == self.map().dom().len(),
    {
        proof {
            let s = self.entries@;
            let ks = s.map_values(|e: (String, usize)| e.0@);
            assert(ks.no_duplicates()) by {
                assert forall|i: int, j: int| 0 <= i < ks.len() && 0 <= j < ks.len() && i != j implies ks[i] != ks[j] by {
                    assert(s[i].0@ != s[j].0@);
                }
            }
            ks.unique_seq_to_set();
            assert(ks.to_set() =~= self.map().dom()) by {
                assert forall|k: Seq<char>| ks.to_set().contains(k) <==> self.map().dom().contains(k) by {
                    if ks.to_set().contains(k) {
                        let i = choose|i: int| 0 <= i < ks.len() && ks[i] == k;
                        assert(s[i].0@ == k);
                    }
                    if self.map().dom().contains(k) {
                        let i = choose|i: int| 0 <= i < s.len() && (#[trigger] s[i]).0@ == k;
                        assert(ks[i] == k);
                    }
                }
            }
        }
        self.entries.len()
    }
}

} // verus!
