use vstd::prelude::*;
use crate::kv::{KvMap, StoreError, TxId, kv_lookup, opt_bytes_view};

verus! {

/// A hint to the store that controls concurrent transactions touching the
/// same client.
pub type UpdateKey = String;

/// A handle for a transaction.
pub trait Tx {
    spec fn id(&self) -> TxId;

    fn get_id(&self) -> (r: TxId)
        ensures
            r == self.id(),
    ;
}

/// A handle for a transaction that cannot be begun yet.
pub trait CreatedTx: Tx + Sized {
    /// A handle for a transaction that has been begun or can be begun.
    type PreparedTx: Tx;

    /// Turns the handle into one that can be begun.
    fn prepare(self) -> (r: Result<Self::PreparedTx, StoreError>)
        ensures
            r matches Ok(p) ==> p.id() == self.id(),
    ;
}

/// A store that supports transactions.
pub trait CommitStore {
    type Tx: CreatedTx;

    /// The store's internal consistency, which every operation keeps.
    spec fn commit_wf(&self) -> bool;

    /// Whether a prepared transaction with this identifier can be begun now.
    spec fn can_begin(&self, id: TxId) -> bool;

    /// Whether a transaction with this identifier is running.
    spec fn is_running(&self, id: TxId) -> bool;

    /// Creates a transaction. `Some(k)` asks the store to order it against
    /// other transactions with the same key `k`; `None` marks it read-only.
    fn create_transaction(&mut self, update_key: Option<UpdateKey>) -> (r: Result<Self::Tx, StoreError>)
        requires
            old(self).commit_wf(),
        ensures
            final(self).commit_wf(),
    ;

    /// Begins a prepared transaction.
    fn begin(&mut self, tx: &<Self::Tx as CreatedTx>::PreparedTx) -> (r: Result<(), StoreError>)
        requires
            old(self).commit_wf(),
            old(self).can_begin(tx.id()),
        ensures
            final(self).commit_wf(),
            r is Ok ==> final(self).is_running(tx.id()),
    ;

    /// Commits a running transaction.
    fn commit(&mut self, tx: <Self::Tx as CreatedTx>::PreparedTx) -> (r: Result<(), StoreError>)
        requires
            old(self).commit_wf(),
            old(self).is_running(tx.id()),
        ensures
            final(self).commit_wf(),
    ;

    /// Discards a running transaction.
    fn rollback(&mut self, tx: <Self::Tx as CreatedTx>::PreparedTx)
        requires
            old(self).commit_wf(),
            old(self).is_running(tx.id()),
        ensures
            final(self).commit_wf(),
    ;
}

/// Access to the contents of a running transaction.
pub trait TxAccessor {
    /// The contents seen by the transaction `id`, if it is known.
    spec fn tx_view(&self, id: TxId) -> Option<KvMap>;

    /// The store's internal consistency, which every operation keeps.
    spec fn accessor_wf(&self) -> bool;

    /// The value of `key` seen by the transaction.
    fn tx_get(&self, tx_id: TxId, key: &[u8]) -> (r: Result<Option<Vec<u8>>, StoreError>)
        requires
            self.accessor_wf(),
        ensures
            match self.tx_view(tx_id) {
                Some(m) => r matches Ok(v) && opt_bytes_view(v) == kv_lookup(m, key@),
                None => r matches Err(StoreError::TxIdNotFound { tx_id: t }) && t == tx_id,
            },
    ;

    /// Sets `key` to `value` in the transaction.
    fn tx_set(&mut self, tx_id: TxId, key: Vec<u8>, value: Vec<u8>) -> (r: Result<(), StoreError>)
        requires
            old(self).accessor_wf(),
        ensures
            final(self).accessor_wf(),
            match old(self).tx_view(tx_id) {
                Some(m) => r is Ok && final(self).tx_view(tx_id) == Some(m.insert(key@, value@)),
                None => r matches Err(StoreError::TxIdNotFound { tx_id: t }) && t == tx_id,
            },
    ;

    /// Deletes `key` in the transaction.
    fn tx_remove(&mut self, tx_id: TxId, key: &[u8]) -> (r: Result<(), StoreError>)
        requires
            old(self).accessor_wf(),
        ensures
            final(self).accessor_wf(),
            match old(self).tx_view(tx_id) {
                Some(m) => r is Ok && final(self).tx_view(tx_id) == Some(m.remove(key@)),
                None => r matches Err(StoreError::TxIdNotFound { tx_id: t }) && t == tx_id,
            },
    ;
}

} // verus!
