use vstd::prelude::*;
use crate::bytes::bytes_to_vec;
use crate::kv::{KVStore, KvMap, StoreError, TxId, WriteSet, apply_writes, clone_opt_bytes, kv_lookup, lemma_apply_no_writes, lemma_apply_writes_insert, lemma_opt_deep_view, lemma_vec_deep_view, opt_bytes_view};
use crate::transaction::{CommitStore, CreatedTx, Tx, TxAccessor, UpdateKey};
use crate::vecmap::{VecMap, distinct_keys, entries_map, has_key, lemma_entries_map_at};

verus! {

/// Applying a write set entry by entry gives the same store as applying it
/// as a whole: the prefix of `i + 1` entries denotes the map of the first
/// `i` entries updated by entry `i`.
pub proof fn lemma_entries_map_take<V: DeepView>(s: Seq<(Vec<u8>, V)>, i: int)
    requires
        distinct_keys(s),
        0 <= i < s.len(),
    ensures
        entries_map(s.take(i + 1)) == entries_map(s.take(i)).insert(s[i].0@, s[i].1.deep_view()),
{
    let a = s.take(i + 1);
    let b = s.take(i);
    assert(distinct_keys(a));
    assert(distinct_keys(b));
    let m = entries_map(b).insert(s[i].0@, s[i].1.deep_view());
    assert forall|k: Seq<u8>| #[trigger] entries_map(a).contains_key(k) <==> m.contains_key(k) by {
        if has_key(a, k) {
            let j = choose|j: int| 0 <= j < a.len() && (#[trigger] a[j]).0@ == k;
            if j < i {
                assert(b[j].0@ == k);
            }
        }
        if has_key(b, k) {
            let j = choose|j: int| 0 <= j < b.len() && (#[trigger] b[j]).0@ == k;
            assert(a[j].0@ == k);
        }
        if k == s[i].0@ {
            assert(a[i].0@ == k);
        }
    }
    assert forall|k: Seq<u8>| #[trigger] entries_map(a).contains_key(k) implies entries_map(a)[k] == m[k] by {
        let j = choose|j: int| 0 <= j < a.len() && (#[trigger] a[j]).0@ == k;
        lemma_entries_map_at(a, j);
        if j < i {
            assert(a[j] == b[j]);
            lemma_entries_map_at(b, j);
            assert(s[j].0@ != s[i].0@);
        }
    }
    assert(entries_map(a) =~= m);
}

/// An in-memory store with at most one running transaction at a time:
/// writes of the running transaction stay pending until it commits.
pub struct InnerMemStore {
    running_tx_exists: bool,
    latest_tx_id: TxId,
    uncommitted_data: WriteSet,
    committed_data: VecMap<Vec<u8>>,
}

impl Default for VecMap<Vec<u8>> {
    fn default() -> (r: Self)
        ensures
            r.wf(),
            r.map() == Map::<Seq<u8>, Seq<u8>>::empty(),
    {
        VecMap::new()
    }
}

impl Default for VecMap<Option<Vec<u8>>> {
    fn default() -> (r: Self)
        ensures
            r.wf(),
            r.map() == Map::<Seq<u8>, Option<Seq<u8>>>::empty(),
    {
        VecMap::new()
    }
}

impl InnerMemStore {
    /// Internal consistency of the two maps.
    pub closed spec fn wf(&self) -> bool {
        &&& self.uncommitted_data.wf()
        &&& self.committed_data.wf()
        &&& !self.running_tx_exists ==> self.uncommitted_data.map() == Map::<Seq<u8>, Option<Seq<u8>>>::empty()
    }

    /// The committed contents.
    pub closed spec fn committed(&self) -> KvMap {
        self.committed_data.map()
    }

    /// Whether a transaction is running.
    pub closed spec fn running(&self) -> bool {
        self.running_tx_exists
    }

    /// The identifier handed out last.
    pub closed spec fn latest(&self) -> TxId {
        self.latest_tx_id
    }

    /// The contents as the running transaction, or anyone when none runs,
    /// sees them.
    pub open spec fn current(&self) -> KvMap {
        if self.running() {
            apply_writes(self.committed(), self.pending())
        } else {
            self.committed()
        }
    }

    /// The pending writes of the running transaction.
    pub closed spec fn pending(&self) -> Map<Seq<u8>, Option<Seq<u8>>> {
        self.uncommitted_data.map()
    }

    /// An empty store with no running transaction.
    pub fn new() -> (r: Self)
        ensures
            r.wf(),
            !r.running(),
            r.committed() == Map::<Seq<u8>, Seq<u8>>::empty(),
            r.latest() == TxId(0),
    {
        InnerMemStore {
            running_tx_exists: false,
            latest_tx_id: TxId(0),
            uncommitted_data: VecMap::new(),
            committed_data: VecMap::new(),
        }
    }

    fn do_get(&self, key: &[u8]) -> (r: Option<Vec<u8>>)
        requires
            self.wf(),
        ensures
            opt_bytes_view(r) == kv_lookup(self.current(), key@),
    {
        if self.running_tx_exists {
            match self.uncommitted_data.get(key) {
                Some(v) => {
                    proof { lemma_opt_deep_view(*v); }
                    clone_opt_bytes(v)
                },
                None => match self.committed_data.get(key) {
                    Some(v) => {
                        proof { lemma_vec_deep_view(*v); }
                        Some(bytes_to_vec(v.as_slice()))
                    },
                    None => None,
                },
            }
        } else {
            match self.committed_data.get(key) {
                Some(v) => {
                    proof { lemma_vec_deep_view(*v); }
                    Some(bytes_to_vec(v.as_slice()))
                },
                None => None,
            }
        }
    }

    fn do_set(&mut self, key: Vec<u8>, value: Vec<u8>)
        requires
            old(self).wf(),
        ensures
            final(self).wf(),
            final(self).current() == old(self).current().insert(key@, value@),
            final(self).running() == old(self).running(),
            final(self).latest() == old(self).latest(),
            !old(self).running() ==> final(self).committed() == old(self).committed().insert(key@, value@),
            old(self).running() ==> final(self).committed() == old(self).committed(),
    {
        let ghost k = key@;
        let ghost v = value@;
        if self.running_tx_exists {
            let ghost w = self.uncommitted_data.map();
            proof { lemma_opt_deep_view(Some(value)); }
            self.uncommitted_data.insert(key, Some(value));
            proof { lemma_apply_writes_insert(self.committed(), w, k, Some(v)); }
        } else {
            proof { lemma_vec_deep_view(value); }
            self.committed_data.insert(key, value);
        }
    }

    fn do_remove(&mut self, key: &[u8])
        requires
            old(self).wf(),
        ensures
            final(self).wf(),
            final(self).current() == old(self).current().remove(key@),
            final(self).running() == old(self).running(),
            final(self).latest() == old(self).latest(),
            !old(self).running() ==> final(self).committed() == old(self).committed().remove(key@),
            old(self).running() ==> final(self).committed() == old(self).committed(),
    {
        if self.running_tx_exists {
            let ghost w = self.uncommitted_data.map();
            let k = bytes_to_vec(key);
            self.uncommitted_data.insert(k, None);
            proof { lemma_apply_writes_insert(self.committed(), w, key@, None); }
        } else {
            self.committed_data.remove(key);
        }
    }

    /// Hands out the next transaction identifier.
    pub fn create_transaction(&mut self, _update_key: Option<UpdateKey>) -> (r: Result<MemTx, StoreError>)
        requires
            old(self).wf(),
        ensures
            final(self).wf(),
            final(self).current() == old(self).current(),
            final(self).running() == old(self).running(),
            final(self).committed() == old(self).committed(),
            old(self).latest().0 < u64::MAX ==> (r matches Ok(tx) && tx.id().0 == old(self).latest().0 + 1
                && final(self).latest() == tx.id()),
            old(self).latest().0 == u64::MAX ==> (r matches Err(StoreError::TxIdOverflow) && final(self).latest() == old(self).latest()),
    {
        self.latest_tx_id.safe_incr()?;
        Ok(MemTx(self.latest_tx_id))
    }

    /// Starts the transaction; no other may be running.
    pub fn begin(&mut self, _tx: &MemTx) -> (r: Result<(), StoreError>)
        requires
            old(self).wf(),
            !old(self).running(),
        ensures
            r is Ok,
            final(self).wf(),
            final(self).running(),
            final(self).current() == old(self).current(),
            final(self).committed() == old(self).committed(),
            final(self).latest() == old(self).latest(),
    {
        self.running_tx_exists = true;
        proof { lemma_apply_no_writes(self.committed()); }
        Ok(())
    }

    /// Applies the pending writes to the committed contents and ends the
    /// transaction.
    pub fn commit(&mut self, _tx: MemTx) -> (r: Result<(), StoreError>)
        requires
            old(self).wf(),
            old(self).running(),
        ensures
            r is Ok,
            final(self).wf(),
            !final(self).running(),
            final(self).committed() == old(self).current(),
            final(self).current() == old(self).current(),
            final(self).latest() == old(self).latest(),
    {
        self.running_tx_exists = false;
        let ghost c0 = self.committed();
        let mut pending: WriteSet = VecMap::new();
        core::mem::swap(&mut pending, &mut self.uncommitted_data);
        let ghost w = pending.map();
        let entries = pending.into_entries();
        let ghost s = entries@;
        assert(entries_map(s.take(0)) =~= Map::<Seq<u8>, Option<Seq<u8>>>::empty());
        proof { lemma_apply_no_writes(c0); }
        let n = entries.len();
        let mut i: usize = 0;
        for e in it: entries
            invariant
                n == s.len(),
                it.seq() == s,
                it.index() <= n,
                distinct_keys(s),
                entries_map(s) == w,
                self.committed_data.wf(),
                self.uncommitted_data.wf(),
                self.uncommitted_data.map() == Map::<Seq<u8>, Option<Seq<u8>>>::empty(),
                !self.running_tx_exists,
                self.latest_tx_id == old(self).latest(),
                self.committed() == apply_writes(c0, entries_map(s.take(it.index() as int))),
        {
            let ghost idx = it.index() as int;
            proof {
                lemma_entries_map_take(s, idx);
                lemma_apply_writes_insert(c0, entries_map(s.take(idx)), s[idx].0@, s[idx].1.deep_view());
                lemma_opt_deep_view(s[idx].1);
            }
            let (k, v) = e;
            match v {
                Some(val) => {
                    proof { lemma_vec_deep_view(val); }
                    self.committed_data.insert(k, val);
                },
                None => {
                    self.committed_data.remove(k.as_slice());
                },
            }
        }
        assert(s.take(n as int) =~= s);
        Ok(())
    }

    /// Drops the pending writes and ends the transaction.
    pub fn rollback(&mut self, _tx: MemTx)
        requires
            old(self).wf(),
            old(self).running(),
        ensures
            final(self).wf(),
            !final(self).running(),
            final(self).committed() == old(self).committed(),
            final(self).current() == old(self).committed(),
            final(self).latest() == old(self).latest(),
    {
        self.running_tx_exists = false;
        self.uncommitted_data.clear();
    }
}

/// An in-memory store, for tests and tools.
pub struct MemStore(InnerMemStore);

impl Default for InnerMemStore {
    fn default() -> (r: Self)
        ensures
            r.wf(),
            !r.running(),
            r.committed() == Map::<Seq<u8>, Seq<u8>>::empty(),
    {
        InnerMemStore::new()
    }
}

impl Default for MemStore {
    fn default() -> (r: Self)
        ensures
            r.wf(),
            !r.inner().running(),
            r.kv() == Map::<Seq<u8>, Seq<u8>>::empty(),
    {
        MemStore::new()
    }
}

impl MemStore {
    pub closed spec fn inner(&self) -> InnerMemStore {
        self.0
    }

    pub open spec fn wf(&self) -> bool {
        self.inner().wf()
    }

    pub fn new() -> (r: Self)
        ensures
            r.wf(),
            !r.inner().running(),
            r.kv() == Map::<Seq<u8>, Seq<u8>>::empty(),
    {
        MemStore(InnerMemStore::new())
    }
}

impl KVStore for MemStore {
    open spec fn kv(&self) -> KvMap {
        self.inner().current()
    }

    open spec fn kv_wf(&self) -> bool {
        self.wf()
    }

    fn set(&mut self, key: Vec<u8>, value: Vec<u8>) {
        self.0.do_set(key, value)
    }

    fn get(&self, key: &[u8]) -> (r: Option<Vec<u8>>) {
        self.0.do_get(key)
    }

    fn remove(&mut self, key: &[u8]) {
        self.0.do_remove(key)
    }
}

impl CommitStore for MemStore {
    type Tx = MemTx;

    open spec fn commit_wf(&self) -> bool {
        self.wf()
    }

    open spec fn can_begin(&self, id: TxId) -> bool {
        !self.inner().running()
    }

    open spec fn is_running(&self, id: TxId) -> bool {
        self.inner().running()
    }

    fn create_transaction(&mut self, update_key: Option<UpdateKey>) -> (r: Result<MemTx, StoreError>)
        ensures
            final(self).kv() == old(self).kv(),
            final(self).inner().running() == old(self).inner().running(),
            old(self).inner().latest().0 < u64::MAX ==> (r matches Ok(tx) && tx.id().0 == old(self).inner().latest().0 + 1),
            old(self).inner().latest().0 == u64::MAX ==> r matches Err(StoreError::TxIdOverflow),
    {
        self.0.create_transaction(update_key)
    }

    fn begin(&mut self, tx: &MemTx) -> (r: Result<(), StoreError>)
        ensures
            r is Ok,
            final(self).kv() == old(self).kv(),
            final(self).inner().committed() == old(self).inner().committed(),
    {
        self.0.begin(tx)
    }

    fn commit(&mut self, tx: MemTx) -> (r: Result<(), StoreError>)
        ensures
            r is Ok,
            !final(self).inner().running(),
            final(self).inner().committed() == old(self).kv(),
            final(self).kv() == old(self).kv(),
    {
        self.0.commit(tx)
    }

    fn rollback(&mut self, tx: MemTx)
        ensures
            !final(self).inner().running(),
            final(self).kv() == old(self).inner().committed(),
    {
        self.0.rollback(tx)
    }
}

impl TxAccessor for MemStore {
    open spec fn tx_view(&self, id: TxId) -> Option<KvMap> {
        Some(self.kv())
    }

    open spec fn accessor_wf(&self) -> bool {
        self.wf()
    }

    fn tx_get(&self, tx_id: TxId, key: &[u8]) -> (r: Result<Option<Vec<u8>>, StoreError>) {
        Ok(self.0.do_get(key))
    }

    fn tx_set(&mut self, tx_id: TxId, key: Vec<u8>, value: Vec<u8>) -> (r: Result<(), StoreError>) {
        self.0.do_set(key, value);
        Ok(())
    }

    fn tx_remove(&mut self, tx_id: TxId, key: &[u8]) -> (r: Result<(), StoreError>) {
        self.0.do_remove(key);
        Ok(())
    }
}

/// A transaction handle of the in-memory store.
pub struct MemTx(pub TxId);

impl Tx for MemTx {
    open spec fn id(&self) -> TxId {
        self.0
    }

    fn get_id(&self) -> (r: TxId) {
        self.0
    }
}

impl CreatedTx for MemTx {
    type PreparedTx = MemTx;

    fn prepare(self) -> (r: Result<MemTx, StoreError>) {
        Ok(self)
    }
}

} // verus!
