use vstd::prelude::*;
use crate::idmap::IdMap;
use crate::kv::{StoreError, TxId};

verus! {

/// The transaction bookkeeping of a store in which every transaction writes
/// to a RocksDB transaction of its own: the last identifier handed out and
/// the transactions running. The database transactions themselves are kept
/// by the caller under the same identifiers.
pub struct RocksDBStore {
    latest_tx_id: TxId,
    txs: IdMap<()>,
}

impl RocksDBStore {
    pub closed spec fn spec_latest(&self) -> u64 {
        self.latest_tx_id.0
    }

    /// The identifiers of the running transactions.
    pub closed spec fn spec_running(&self) -> Set<u64> {
        self.txs.map().dom()
    }

    pub closed spec fn wf(&self) -> bool {
        self.txs.wf()
    }

    /// A store with no transactions.
    pub fn create() -> (r: Self)
        ensures
            r.wf(),
            r.spec_latest() == 0,
            r.spec_running() == Set::<u64>::empty(),
    {
        let r = RocksDBStore { latest_tx_id: TxId(0), txs: IdMap::new() };
        assert(r.spec_running() =~= Set::<u64>::empty());
        r
    }

    /// Starts a transaction under the next identifier; fails when the
    /// identifiers are used up.
    pub fn begin(&mut self) -> (r: Result<TxId, StoreError>)
        requires
            old(self).wf(),
        ensures
            final(self).wf(),
            old(self).spec_latest() == u64::MAX ==> (r matches Err(StoreError::TxIdOverflow) && *final(self) == *old(self)),
            old(self).spec_latest() < u64::MAX ==> (r matches Ok(id) && id.0 == old(self).spec_latest() + 1
                && final(self).spec_latest() == id.0
                && final(self).spec_running() == old(self).spec_running().insert(id.0)),
    {
        self.latest_tx_id.safe_incr()?;
        self.txs.insert(self.latest_tx_id.0, ());
        assert(self.spec_running() =~= old(self).spec_running().insert(self.latest_tx_id.0));
        Ok(self.latest_tx_id)
    }

    /// Ends a running transaction; the caller then commits or discards its
    /// database transaction.
    pub fn finish(&mut self, tx_id: TxId)
        requires
            old(self).wf(),
            old(self).spec_running().contains(tx_id.0),
        ensures
            final(self).wf(),
            final(self).spec_latest() == old(self).spec_latest(),
            final(self).spec_running() == old(self).spec_running().remove(tx_id.0),
    {
        let _ = self.txs.remove(tx_id.0);
        assert(self.spec_running() =~= old(self).spec_running().remove(tx_id.0));
    }

    /// Checks that a transaction is running before its database transaction
    /// is read or written.
    pub fn check_running(&self, tx_id: TxId) -> (r: Result<(), StoreError>)
        requires
            self.wf(),
        ensures
            self.spec_running().contains(tx_id.0) ==> r is Ok,
            !self.spec_running().contains(tx_id.0) ==> (r matches Err(StoreError::TxIdNotFound { tx_id: t }) && t == tx_id),
    {
        if self.txs.contains_key(tx_id.0) {
            Ok(())
        } else {
            Err(StoreError::TxIdNotFound { tx_id })
        }
    }
}

} // verus!
