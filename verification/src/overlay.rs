use vstd::prelude::*;
use crate::bytes::bytes_to_vec;
use crate::kv::{KVStore, KvMap, WriteSet, apply_writes, clone_opt_bytes, kv_lookup, lemma_apply_writes_insert, lemma_apply_no_writes, lemma_opt_deep_view, opt_bytes_view};
use crate::vecmap::VecMap;

verus! {

/// A speculative view over a parent store: reads consult the pending
/// overlay first and fall back to the parent; writes only go to the overlay
/// and never reach the parent.
pub struct OverlayKVS<S: KVStore> {
    parent: S,
    overlay: WriteSet,
}

impl<S: KVStore> OverlayKVS<S> {
    pub closed spec fn parent_store(&self) -> S {
        self.parent
    }

    pub closed spec fn writes(&self) -> Map<Seq<u8>, Option<Seq<u8>>> {
        self.overlay.map()
    }

    pub closed spec fn overlay_wf(&self) -> bool {
        self.overlay.wf()
    }

    /// An overlay with no pending writes.
    pub fn new(parent: S) -> (r: Self)
        ensures
            r.parent_store() == parent,
            r.overlay_wf(),
            r.writes() == Map::<Seq<u8>, Option<Seq<u8>>>::empty(),
            r.kv() == parent.kv(),
    {
        let r = OverlayKVS { parent, overlay: VecMap::new() };
        proof { lemma_apply_no_writes(parent.kv()); }
        r
    }

    /// The pending writes.
    pub fn overlay(&self) -> (r: &WriteSet)
        ensures
            r.wf() == self.overlay_wf(),
            r.map() == self.writes(),
    {
        &self.overlay
    }

    /// Splits the overlay into the untouched parent and the pending writes.
    pub fn into_parts(self) -> (r: (S, WriteSet))
        ensures
            r.0 == self.parent_store(),
            r.1.wf() == self.overlay_wf(),
            r.1.map() == self.writes(),
    {
        (self.parent, self.overlay)
    }
}

impl<S: KVStore> KVStore for OverlayKVS<S> {
    open spec fn kv(&self) -> KvMap {
        apply_writes(self.parent_store().kv(), self.writes())
    }

    open spec fn kv_wf(&self) -> bool {
        self.parent_store().kv_wf() && self.overlay_wf()
    }

    fn set(&mut self, key: Vec<u8>, value: Vec<u8>)
        ensures
            final(self).parent_store() == old(self).parent_store(),
            final(self).writes() == old(self).writes().insert(key@, Some(value@)),
    {
        let ghost k = key@;
        let ghost v = value@;
        proof {
            lemma_opt_deep_view(Some(value));
            lemma_apply_writes_insert(self.parent.kv(), self.overlay.map(), k, Some(v));
        }
        self.overlay.insert(key, Some(value));
    }

    fn get(&self, key: &[u8]) -> (r: Option<Vec<u8>>) {
        match self.overlay.get(key) {
            Some(v) => {
                proof { lemma_opt_deep_view(*v); }
                clone_opt_bytes(v)
            },
            None => self.parent.get(key),
        }
    }

    fn remove(&mut self, key: &[u8])
        ensures
            final(self).parent_store() == old(self).parent_store(),
            final(self).writes() == old(self).writes().insert(key@, None),
    {
        proof {
            lemma_apply_writes_insert(self.parent.kv(), self.overlay.map(), key@, None);
        }
        self.overlay.insert(bytes_to_vec(key), None);
    }
}

/// A read through an overlay answers with the overlay's pending write of
/// the key when there is one (a removal reads as absent), and with the
/// parent's value otherwise.
pub proof fn lemma_overlay_read<S: KVStore>(o: OverlayKVS<S>, k: Seq<u8>)
    ensures
        kv_lookup(o.kv(), k) == if o.writes().contains_key(k) {
            o.writes()[k]
        } else {
            kv_lookup(o.parent_store().kv(), k)
        },
{
}

} // verus!
