use vstd::prelude::*;
use crate::bytes::bytes_to_vec;
use crate::kv::{KVStore, WriteSet, clone_opt_bytes, kv_lookup, lemma_opt_deep_view, opt_bytes_view};
use crate::vecmap::VecMap;

verus! {

/// A store that remembers what it read from its parent: once a key has been
/// read, written or removed through the cache, later reads answer from the
/// cache without asking the parent.
pub struct CacheKVS<S: KVStore> {
    parent: S,
    cache: WriteSet,
}

impl<S: KVStore> CacheKVS<S> {
    pub closed spec fn parent_store(&self) -> S {
        self.parent
    }

    /// What the cache remembers: `Some(v)` for a known value, `None` for a
    /// known absence.
    pub closed spec fn cached(&self) -> Map<Seq<u8>, Option<Seq<u8>>> {
        self.cache.map()
    }

    pub closed spec fn wf(&self) -> bool {
        self.cache.wf() && self.parent.kv_wf()
    }

    /// Every remembered entry agrees with the parent.
    pub open spec fn coherent(&self) -> bool {
        forall|k: Seq<u8>| #[trigger] self.cached().contains_key(k) ==> self.cached()[k] == kv_lookup(self.parent_store().kv(), k)
    }

    /// A cache that remembers nothing yet.
    pub fn new(parent: S) -> (r: Self)
        requires
            parent.kv_wf(),
        ensures
            r.wf(),
            r.coherent(),
            r.parent_store() == parent,
            r.cached() == Map::<Seq<u8>, Option<Seq<u8>>>::empty(),
    {
        CacheKVS { parent, cache: VecMap::new() }
    }

    /// The parent store, to read or change beside the cache. What the cache
    /// remembers is kept as it is, so after a change made here it may no
    /// longer agree with the parent.
    pub fn parent_mut(&mut self) -> (r: &mut S)
        ensures
            *r == old(self).parent_store(),
            final(self).parent_store() == *final(r),
            final(self).cached() == old(self).cached(),
            old(self).wf() && final(r).kv_wf() ==> final(self).wf(),
    {
        &mut self.parent
    }

    /// Writes through to the parent and remembers the value.
    pub fn set(&mut self, key: Vec<u8>, value: Vec<u8>)
        requires
            old(self).wf(),
        ensures
            final(self).wf(),
            final(self).parent_store().kv() == old(self).parent_store().kv().insert(key@, value@),
            final(self).cached() == old(self).cached().insert(key@, Some(value@)),
            old(self).coherent() ==> final(self).coherent(),
    {
        let k2 = bytes_to_vec(key.as_slice());
        let v2 = bytes_to_vec(value.as_slice());
        self.parent.set(key, value);
        proof { lemma_opt_deep_view(Some(v2)); }
        self.cache.insert(k2, Some(v2));
    }

    /// Answers from the cache when the key is remembered; otherwise reads the
    /// parent and remembers the answer, present or absent.
    pub fn get(&mut self, key: &[u8]) -> (r: Option<Vec<u8>>)
        requires
            old(self).wf(),
        ensures
            final(self).wf(),
            final(self).parent_store() == old(self).parent_store(),
            old(self).cached().contains_key(key@) ==> opt_bytes_view(r) == old(self).cached()[key@],
            !old(self).cached().contains_key(key@) ==> opt_bytes_view(r) == kv_lookup(old(self).parent_store().kv(), key@),
            final(self).cached() == old(self).cached().insert(key@, opt_bytes_view(r)),
            old(self).coherent() ==> final(self).coherent() && opt_bytes_view(r) == kv_lookup(old(self).parent_store().kv(), key@),
    {
        match self.cache.get(key) {
            Some(v) => {
                proof { lemma_opt_deep_view(*v); }
                let r = clone_opt_bytes(v);
                let r2 = clone_opt_bytes(v);
                proof { lemma_opt_deep_view(r2); }
                self.cache.insert(bytes_to_vec(key), r2);
                proof {
                    assert(self.cache.map() =~= old(self).cached().insert(key@, opt_bytes_view(r)));
                }
                r
            },
            None => {
                let v = self.parent.get(key);
                let v2 = clone_opt_bytes(&v);
                proof { lemma_opt_deep_view(v2); }
                self.cache.insert(bytes_to_vec(key), v2);
                v
            },
        }
    }

    /// Removes from the parent and remembers the absence.
    pub fn remove(&mut self, key: &[u8])
        requires
            old(self).wf(),
        ensures
            final(self).wf(),
            final(self).parent_store().kv() == old(self).parent_store().kv().remove(key@),
            final(self).cached() == old(self).cached().insert(key@, None),
            old(self).coherent() ==> final(self).coherent(),
    {
        self.parent.remove(key);
        self.cache.insert(bytes_to_vec(key), None);
    }
}

} // verus!
