use vstd::prelude::*;
use crate::kv::{KvMap, StoreError, TxId};
use crate::memory::MemStore;
use crate::transaction::TxAccessor;

verus! {

/// The stores a host runs with.
pub enum HostStore {
    Memory(MemStore),
}

impl HostStore {
    /// The in-memory store held.
    pub open spec fn memory(&self) -> MemStore {
        match self {
            HostStore::Memory(s) => *s,
        }
    }
}

/// Hands the commit store of type `S` that a value holds to a function.
pub trait IntoCommitStore<S> {
    /// The commit store held.
    spec fn commit_store(&self) -> S;

    /// Applies `f` to the commit store held, and returns what `f` returns.
    fn apply<T, F: FnOnce(&mut S) -> T>(&mut self, f: F) -> (r: T)
        requires
            forall|s: &mut S| *s == old(self).commit_store() ==> f.requires((s,)),
        ensures
            exists|s: &mut S| *s == old(self).commit_store() && final(self).commit_store() == *final(s) && f.ensures((s,), r);
}

impl IntoCommitStore<MemStore> for HostStore {
    open spec fn commit_store(&self) -> MemStore {
        self.memory()
    }

    fn apply<T, F: FnOnce(&mut MemStore) -> T>(&mut self, f: F) -> (r: T) {
        match self {
            HostStore::Memory(store) => f(store),
        }
    }
}

impl TxAccessor for HostStore {
    open spec fn tx_view(&self, id: TxId) -> Option<KvMap> {
        self.memory().tx_view(id)
    }

    open spec fn accessor_wf(&self) -> bool {
        self.memory().accessor_wf()
    }

    fn tx_get(&self, tx_id: TxId, key: &[u8]) -> (r: Result<Option<Vec<u8>>, StoreError>) {
        match self {
            HostStore::Memory(s) => s.tx_get(tx_id, key),
        }
    }

    fn tx_set(&mut self, tx_id: TxId, key: Vec<u8>, value: Vec<u8>) -> (r: Result<(), StoreError>) {
        match self {
            HostStore::Memory(s) => s.tx_set(tx_id, key, value),
        }
    }

    fn tx_remove(&mut self, tx_id: TxId, key: &[u8]) -> (r: Result<(), StoreError>) {
        match self {
            HostStore::Memory(s) => s.tx_remove(tx_id, key),
        }
    }
}

} // verus!
