use vstd::prelude::*;
use crate::bytes::bytes_to_vec;
use crate::decimal::{dec_digits, u64_to_decimal};
use crate::vecmap::VecMap;

verus! {

/// Pending writes: `Some(v)` sets a key to `v`, `None` deletes it.
pub type WriteSet = VecMap<Option<Vec<u8>>>;

/// A key-value view of a store.
pub type KvMap = Map<Seq<u8>, Seq<u8>>;

/// The store that results from applying pending writes `w` over `base`.
pub open spec fn apply_writes(base: KvMap, w: Map<Seq<u8>, Option<Seq<u8>>>) -> KvMap {
    Map::new(
        |k: Seq<u8>| if w.contains_key(k) { w[k] is Some } else { base.contains_key(k) },
        |k: Seq<u8>| if w.contains_key(k) { w[k].unwrap() } else { base[k] },
    )
}

/// Looking a key up in a key-value view.
pub open spec fn kv_lookup(m: KvMap, k: Seq<u8>) -> Option<Seq<u8>> {
    if m.contains_key(k) {
        Some(m[k])
    } else {
        None
    }
}

pub open spec fn opt_bytes_view(o: Option<Vec<u8>>) -> Option<Seq<u8>> {
    match o {
        Some(v) => Some(v@),
        None => None,
    }
}

pub proof fn lemma_apply_writes_insert(base: KvMap, w: Map<Seq<u8>, Option<Seq<u8>>>, k: Seq<u8>, v: Option<Seq<u8>>)
    ensures
        apply_writes(base, w.insert(k, v)) == match v {
            Some(x) => apply_writes(base, w).insert(k, x),
            None => apply_writes(base, w).remove(k),
        },
{
    match v {
        Some(x) => {
            assert(apply_writes(base, w.insert(k, v)) =~= apply_writes(base, w).insert(k, x));
        },
        None => {
            assert(apply_writes(base, w.insert(k, v)) =~= apply_writes(base, w).remove(k));
        },
    }
}

pub proof fn lemma_apply_no_writes(base: KvMap)
    ensures
        apply_writes(base, Map::<Seq<u8>, Option<Seq<u8>>>::empty()) == base,
{
    assert(apply_writes(base, Map::<Seq<u8>, Option<Seq<u8>>>::empty()) =~= base);
}

/// A byte-keyed, byte-valued store.
pub trait KVStore {
    /// The contents of the store.
    spec fn kv(&self) -> KvMap;

    /// The store's internal consistency, which every operation keeps.
    spec fn kv_wf(&self) -> bool;

    /// Sets `key` to `value`.
    fn set(&mut self, key: Vec<u8>, value: Vec<u8>)
        requires
            old(self).kv_wf(),
        ensures
            final(self).kv_wf(),
            final(self).kv() == old(self).kv().insert(key@, value@),
    ;

    /// The value of `key`, if any.
    fn get(&self, key: &[u8]) -> (r: Option<Vec<u8>>)
        requires
            self.kv_wf(),
        ensures
            opt_bytes_view(r) == kv_lookup(self.kv(), key@),
    ;

    /// Deletes `key`.
    fn remove(&mut self, key: &[u8])
        requires
            old(self).kv_wf(),
        ensures
            final(self).kv_wf(),
            final(self).kv() == old(self).kv().remove(key@),
    ;
}

/// Errors of the stores.
#[derive(Debug, Clone)]
pub enum StoreError {
    TxIdOverflow,
    TxIdNotFound { tx_id: TxId },
    BeginTx { descr: String },
    RollbackTx { descr: String },
    CommitTx { descr: String },
    WaitMutex { descr: String },
    NotSupportedOperation { descr: String },
    InvalidUpdateKeyLength { length: usize },
    BincodeError,
}

/// A transaction identifier.
#[derive(Debug, Default, Clone, Copy, Hash, PartialEq, Eq, Structural, PartialOrd, Ord)]
pub struct TxId(pub u64);

impl TxId {
    /// Advances the identifier by one; fails, leaving it unchanged, when it
    /// would overflow.
    pub fn safe_incr(&mut self) -> (r: Result<(), StoreError>)
        ensures
            old(self).0 < u64::MAX ==> (r is Ok && final(self).0 == old(self).0 + 1),
            old(self).0 == u64::MAX ==> (r matches Err(StoreError::TxIdOverflow) && final(self).0 == old(self).0),
    {
        match self.0.checked_add(1) {
            Some(v) => {
                self.0 = v;
                Ok(())
            },
            None => Err(StoreError::TxIdOverflow),
        }
    }

    /// The numeric value.
    pub fn value(&self) -> (r: u64)
        ensures
            r == self.0,
    {
        self.0
    }

    /// The decimal text of the identifier.
    pub fn to_string(&self) -> (s: String)
        ensures
            s@ == dec_digits(self.0 as nat),
    {
        u64_to_decimal(self.0)
    }
}

/// Copies an optional value out of a write set.
pub fn clone_opt_bytes(o: &Option<Vec<u8>>) -> (r: Option<Vec<u8>>)
    ensures
        opt_bytes_view(r) == opt_bytes_view(*o),
{
    match o {
        Some(v) => Some(bytes_to_vec(v.as_slice())),
        None => None,
    }
}

pub proof fn lemma_opt_deep_view(o: Option<Vec<u8>>)
    ensures
        o.deep_view() == opt_bytes_view(o),
{
    match o {
        Some(v) => {
            assert(v.deep_view() =~= v@);
        },
        None => {},
    }
}

pub proof fn lemma_vec_deep_view(v: Vec<u8>)
    ensures
        v.deep_view() == v@,
{
    assert(v.deep_view() =~= v@);
}

} // verus!
