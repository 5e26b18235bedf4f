use vstd::prelude::*;
use crate::bytes::bytes_to_vec;
use crate::idmap::IdMap;
use crate::keycounts::KeyCounts;
use crate::kv::{StoreError, TxId, WriteSet, clone_opt_bytes, lemma_opt_deep_view, lemma_vec_deep_view, opt_bytes_view};
use crate::transaction::{CreatedTx, Tx, UpdateKey};
use crate::vecmap::VecMap;

verus! {

/// Which kind of database a store runs on.
#[derive(Clone, Copy, PartialEq, Eq, Structural, Debug)]
pub enum InnerDB {
    /// A transactional database, read and written.
    TransactionDB,
    /// A database opened read-only.
    ReadOnlyDB,
}

/// Where a read in a transaction is answered from: the transaction's own
/// buffer (with the value, or `None` for a key it deleted), or the database
/// as the transaction's snapshot sees it.
#[derive(Debug)]
pub enum TxRead {
    Buffered(Option<Vec<u8>>),
    Database,
}

/// Where a write in a transaction goes: the transaction's buffer, never to
/// be committed, or the database transaction.
#[derive(Debug, Clone, Copy, PartialEq, Eq, Structural)]
pub enum TxWrite {
    Buffered,
    Database,
}

/// The read in a buffer: what it holds of `key`, or `Database`.
pub open spec fn buffered_read(buffer: Map<Seq<u8>, Option<Seq<u8>>>, key: Seq<u8>, r: TxRead) -> bool {
    if buffer.contains_key(key) {
        r matches TxRead::Buffered(v) && opt_bytes_view(v) == buffer[key]
    } else {
        r is Database
    }
}

fn buffer_get(buffer: &WriteSet, key: &[u8]) -> (r: TxRead)
    requires
        buffer.wf(),
    ensures
        buffered_read(buffer.map(), key@, r),
{
    match buffer.get(key) {
        Some(v) => {
            proof { lemma_opt_deep_view(*v); }
            TxRead::Buffered(clone_opt_bytes(v))
        },
        None => TxRead::Database,
    }
}

/// A read transaction on a snapshot of a transactional database. Reads see
/// the transaction's own writes first, then the snapshot; writes stay in the
/// buffer and are never committed.
pub struct ReadTransaction {
    buffer: WriteSet,
}

/// A read transaction on a snapshot of a read-only database, buffered in the
/// same way.
pub struct ReadSnapshot {
    buffer: WriteSet,
}

/// A writable transaction: reads see its snapshot, writes go to the
/// database transaction.
pub struct UpdateTransaction {}

/// A running transaction of one of the three kinds.
pub enum StoreTransaction {
    Read(ReadTransaction),
    Update(UpdateTransaction),
    ReadSnapshot(ReadSnapshot),
}

impl ReadTransaction {
    pub closed spec fn buffer(&self) -> Map<Seq<u8>, Option<Seq<u8>>> {
        self.buffer.map()
    }

    pub closed spec fn wf(&self) -> bool {
        self.buffer.wf()
    }

    pub fn new() -> (r: Self)
        ensures
            r.wf(),
            r.buffer() == Map::<Seq<u8>, Option<Seq<u8>>>::empty(),
    {
        ReadTransaction { buffer: VecMap::new() }
    }

    pub fn set(&mut self, key: Vec<u8>, value: Vec<u8>)
        requires
            old(self).wf(),
        ensures
            final(self).wf(),
            final(self).buffer() == old(self).buffer().insert(key@, Some(value@)),
    {
        proof { lemma_vec_deep_view(value); }
        self.buffer.insert(key, Some(value));
    }

    pub fn get(&self, key: &[u8]) -> (r: TxRead)
        requires
            self.wf(),
        ensures
            buffered_read(self.buffer(), key@, r),
    {
        buffer_get(&self.buffer, key)
    }

    pub fn remove(&mut self, key: &[u8])
        requires
            old(self).wf(),
        ensures
            final(self).wf(),
            final(self).buffer() == old(self).buffer().insert(key@, None),
    {
        self.buffer.insert(bytes_to_vec(key), None);
    }
}

impl ReadSnapshot {
    pub closed spec fn buffer(&self) -> Map<Seq<u8>, Option<Seq<u8>>> {
        self.buffer.map()
    }

    pub closed spec fn wf(&self) -> bool {
        self.buffer.wf()
    }

    pub fn new() -> (r: Self)
        ensures
            r.wf(),
            r.buffer() == Map::<Seq<u8>, Option<Seq<u8>>>::empty(),
    {
        ReadSnapshot { buffer: VecMap::new() }
    }

    pub fn set(&mut self, key: Vec<u8>, value: Vec<u8>)
        requires
            old(self).wf(),
        ensures
            final(self).wf(),
            final(self).buffer() == old(self).buffer().insert(key@, Some(value@)),
    {
        proof { lemma_vec_deep_view(value); }
        self.buffer.insert(key, Some(value));
    }

    pub fn get(&self, key: &[u8]) -> (r: TxRead)
        requires
            self.wf(),
        ensures
            buffered_read(self.buffer(), key@, r),
    {
        buffer_get(&self.buffer, key)
    }

    pub fn remove(&mut self, key: &[u8])
        requires
            old(self).wf(),
        ensures
            final(self).wf(),
            final(self).buffer() == old(self).buffer().insert(key@, None),
    {
        self.buffer.insert(bytes_to_vec(key), None);
    }
}

impl StoreTransaction {
    /// The buffer of a read transaction; `None` for an update transaction.
    pub open spec fn spec_buffer(&self) -> Option<Map<Seq<u8>, Option<Seq<u8>>>> {
        match self {
            StoreTransaction::Read(t) => Some(t.buffer()),
            StoreTransaction::ReadSnapshot(t) => Some(t.buffer()),
            StoreTransaction::Update(_) => None,
        }
    }

    pub open spec fn wf(&self) -> bool {
        match self {
            StoreTransaction::Read(t) => t.wf(),
            StoreTransaction::ReadSnapshot(t) => t.wf(),
            StoreTransaction::Update(_) => true,
        }
    }

    /// Writes go to the database and are committed with the transaction.
    pub fn is_update(&self) -> (r: bool)
        ensures
            r == (*self is Update),
    {
        match self {
            StoreTransaction::Update(_) => true,
            _ => false,
        }
    }

    pub fn set(&mut self, key: Vec<u8>, value: Vec<u8>) -> (r: TxWrite)
        requires
            old(self).wf(),
        ensures
            final(self).wf(),
            (*old(self) is Update) == (*final(self) is Update),
            (*old(self) is Read) == (*final(self) is Read),
            match old(self).spec_buffer() {
                Some(b) => r is Buffered && final(self).spec_buffer() == Some(b.insert(key@, Some(value@))),
                None => r is Database && final(self).spec_buffer() is None,
            },
    {
        match self {
            StoreTransaction::Read(t) => {
                t.set(key, value);
                TxWrite::Buffered
            },
            StoreTransaction::ReadSnapshot(t) => {
                t.set(key, value);
                TxWrite::Buffered
            },
            StoreTransaction::Update(_) => TxWrite::Database,
        }
    }

    pub fn get(&self, key: &[u8]) -> (r: TxRead)
        requires
            self.wf(),
        ensures
            match self.spec_buffer() {
                Some(b) => buffered_read(b, key@, r),
                None => r is Database,
            },
    {
        match self {
            StoreTransaction::Read(t) => t.get(key),
            StoreTransaction::ReadSnapshot(t) => t.get(key),
            StoreTransaction::Update(_) => TxRead::Database,
        }
    }

    pub fn remove(&mut self, key: &[u8]) -> (r: TxWrite)
        requires
            old(self).wf(),
        ensures
            final(self).wf(),
            (*old(self) is Update) == (*final(self) is Update),
            (*old(self) is Read) == (*final(self) is Read),
            match old(self).spec_buffer() {
                Some(b) => r is Buffered && final(self).spec_buffer() == Some(b.insert(key@, None)),
                None => r is Database && final(self).spec_buffer() is None,
            },
    {
        match self {
            StoreTransaction::Read(t) => {
                t.remove(key);
                TxWrite::Buffered
            },
            StoreTransaction::ReadSnapshot(t) => {
                t.remove(key);
                TxWrite::Buffered
            },
            StoreTransaction::Update(_) => TxWrite::Database,
        }
    }
}

/// The marker of a transaction handle that cannot be begun yet.
pub struct CreatedRocksDBTx;

/// The marker of a transaction handle that has been begun or can be begun.
pub struct PreparedRocksDBTx;

/// A transaction handle: its identifier, and the update key of an update
/// transaction.
pub struct RocksDBTx<T> {
    pub id: TxId,
    pub update_key: Option<UpdateKey>,
    pub marker: T,
}

impl<T> RocksDBTx<T> {
    pub open spec fn spec_update_key(&self) -> Option<Seq<char>> {
        match self.update_key {
            Some(k) => Some(k@),
            None => None,
        }
    }

    /// An update transaction is one with an update key.
    pub fn is_update_tx(&self) -> (r: bool)
        ensures
            r == self.spec_update_key() is Some,
    {
        self.update_key.is_some()
    }

    /// The update key of an update transaction.
    pub fn update_key(&self) -> (r: &Option<UpdateKey>)
        ensures
            match *r {
                Some(k) => self.spec_update_key() == Some(k@),
                None => self.spec_update_key() is None,
            },
    {
        &self.update_key
    }
}

impl RocksDBTx<CreatedRocksDBTx> {
    /// A handle of a read transaction.
    pub fn new_read_tx(id: TxId) -> (r: Self)
        ensures
            r.id() == id,
            r.spec_update_key() is None,
    {
        RocksDBTx { id, update_key: None, marker: CreatedRocksDBTx }
    }

    /// A handle of an update transaction with this update key.
    pub fn new_update_tx(id: TxId, update_key: UpdateKey) -> (r: Self)
        ensures
            r.id() == id,
            r.spec_update_key() == Some(update_key@),
    {
        RocksDBTx { id, update_key: Some(update_key), marker: CreatedRocksDBTx }
    }
}

impl<T> Tx for RocksDBTx<T> {
    open spec fn id(&self) -> TxId {
        self.id
    }

    fn get_id(&self) -> (r: TxId) {
        self.id
    }
}

impl CreatedTx for RocksDBTx<CreatedRocksDBTx> {
    type PreparedTx = RocksDBTx<PreparedRocksDBTx>;

    /// Readies the handle to be begun; the caller then holds the update
    /// key's lock, when there is one.
    fn prepare(self) -> (r: Result<RocksDBTx<PreparedRocksDBTx>, StoreError>)
        ensures
            r matches Ok(p) && p.spec_update_key() == self.spec_update_key(),
    {
        Ok(RocksDBTx { id: self.id, update_key: self.update_key, marker: PreparedRocksDBTx })
    }
}

/// The lock counts once an update transaction of key `k` has been created.
pub open spec fn locks_after_acquire(m: Map<Seq<char>, nat>, k: Seq<char>) -> Map<Seq<char>, nat> {
    m.insert(k, if m.contains_key(k) { m[k] + 1 } else { 1 })
}

/// The lock counts once an update transaction of key `k` has ended: the key
/// is forgotten with its last transaction.
pub open spec fn locks_after_release(m: Map<Seq<char>, nat>, k: Seq<char>) -> Map<Seq<char>, nat> {
    if m[k] == 1 {
        m.remove(k)
    } else {
        m.insert(k, (m[k] - 1) as nat)
    }
}

/// Creating an update transaction and ending it leaves the lock counts as
/// they were: a key no other transaction holds is forgotten again.
pub proof fn lemma_update_lock_roundtrip(m: Map<Seq<char>, nat>, k: Seq<char>)
    requires
        forall|x: Seq<char>| #[trigger] m.contains_key(x) ==> m[x] >= 1,
    ensures
        locks_after_release(locks_after_acquire(m, k), k) == m,
{
    let a = locks_after_acquire(m, k);
    if m.contains_key(k) {
        assert(a.insert(k, (a[k] - 1) as nat) =~= m);
    } else {
        assert(a.remove(k) =~= m);
    }
}

/// The transaction bookkeeping of a RocksDB-backed store: the last
/// transaction identifier handed out, the running transactions, and for each
/// update key the number of open update transactions that hold its lock.
/// The database itself, its snapshots and its transactions are kept by the
/// caller under the same identifiers.
pub struct RocksDBStore {
    db: InnerDB,
    latest_tx_id: TxId,
    txs: IdMap<StoreTransaction>,
    mutex: KeyCounts,
}

impl RocksDBStore {
    pub closed spec fn spec_db(&self) -> InnerDB {
        self.db
    }

    pub closed spec fn spec_latest(&self) -> u64 {
        self.latest_tx_id.0
    }

    pub closed spec fn spec_txs(&self) -> Map<u64, StoreTransaction> {
        self.txs.map()
    }

    /// The number of open update transactions of each update key.
    pub closed spec fn spec_locks(&self) -> Map<Seq<char>, nat> {
        self.mutex.map()
    }

    pub closed spec fn wf(&self) -> bool {
        &&& self.txs.wf()
        &&& self.mutex.wf()
        &&& forall|id: u64| #[trigger] self.txs.map().contains_key(id) ==> self.txs.map()[id].wf()
    }

    /// A store on a database of the given kind, with no transactions.
    pub fn create(db: InnerDB) -> (r: Self)
        ensures
            r.wf(),
            r.spec_db() == db,
            r.spec_latest() == 0,
            r.spec_txs() == Map::<u64, StoreTransaction>::empty(),
            r.spec_locks() == Map::<Seq<char>, nat>::empty(),
    {
        RocksDBStore { db, latest_tx_id: TxId(0), txs: IdMap::new(), mutex: KeyCounts::new() }
    }

    /// A store on a database opened read-only (the caller opens it), with no
    /// transactions: every transaction it creates is a read transaction.
    pub fn open_read_only() -> (r: Self)
        ensures
            r.wf(),
            r.spec_db() == InnerDB::ReadOnlyDB,
            r.spec_latest() == 0,
            r.spec_txs() == Map::<u64, StoreTransaction>::empty(),
            r.spec_locks() == Map::<Seq<char>, nat>::empty(),
    {
        Self::create(InnerDB::ReadOnlyDB)
    }

    /// The number of update keys with open update transactions.
    pub fn mutex_len(&self) -> (r: usize)
        requires
            self.wf(),
        ensures
            r == self.spec_locks().dom().len(),
    {
        self.mutex.len()
    }

    /// Hands out the next transaction identifier. On a read-only database
    /// the transaction reads whatever the update key says; otherwise an update
    /// key makes it an update transaction holding that key's lock, and an
    /// empty update key is refused (after the identifier was taken).
    pub fn create_transaction(&mut self, update_key: Option<UpdateKey>) -> (r: Result<RocksDBTx<CreatedRocksDBTx>, StoreError>)
        requires
            old(self).wf(),
            update_key matches Some(k) ==> (old(self).spec_locks().contains_key(k@)
                ==> old(self).spec_locks()[k@] < usize::MAX),
        ensures
            final(self).wf(),
            final(self).spec_db() == old(self).spec_db(),
            final(self).spec_txs() == old(self).spec_txs(),
            old(self).spec_latest() == u64::MAX ==> (r matches Err(StoreError::TxIdOverflow)
                && final(self).spec_latest() == old(self).spec_latest()
                && final(self).spec_locks() == old(self).spec_locks()),
            old(self).spec_latest() < u64::MAX ==> final(self).spec_latest() == old(self).spec_latest() + 1,
            old(self).spec_latest() < u64::MAX && (old(self).spec_db() is ReadOnlyDB || update_key is None) ==> (
                r matches Ok(tx) && tx.id().0 == final(self).spec_latest() && tx.spec_update_key() is None
                && final(self).spec_locks() == old(self).spec_locks()),
            old(self).spec_latest() < u64::MAX && old(self).spec_db() is TransactionDB ==> (update_key matches Some(k)
                ==> (k@.len() == 0 ==> (r matches Err(StoreError::InvalidUpdateKeyLength { length }) && length == 0
                    && final(self).spec_locks() == old(self).spec_locks()))
                && (k@.len() > 0 ==> (r matches Ok(tx) && tx.id().0 == final(self).spec_latest()
                    && tx.spec_update_key() == Some(k@)
                    && final(self).spec_locks() == locks_after_acquire(old(self).spec_locks(), k@)))),
    {
        self.latest_tx_id.safe_incr()?;
        match self.db {
            InnerDB::ReadOnlyDB => Ok(RocksDBTx::new_read_tx(self.latest_tx_id)),
            InnerDB::TransactionDB => match update_key {
                Some(update_key) => {
                    if update_key.as_str().unicode_len() == 0 {
                        return Err(StoreError::InvalidUpdateKeyLength { length: 0 });
                    }
                    self.mutex.acquire(update_key.clone());
                    Ok(RocksDBTx::new_update_tx(self.latest_tx_id, update_key))
                },
                None => Ok(RocksDBTx::new_read_tx(self.latest_tx_id)),
            },
        }
    }

    /// Starts the transaction of a prepared handle: on a read-only database a
    /// buffered snapshot read; otherwise an update transaction for a handle
    /// with an update key, a buffered read transaction for one without.
    pub fn begin(&mut self, tx: &RocksDBTx<PreparedRocksDBTx>) -> (r: Result<(), StoreError>)
        requires
            old(self).wf(),
        ensures
            r is Ok,
            final(self).wf(),
            final(self).spec_db() == old(self).spec_db(),
            final(self).spec_latest() == old(self).spec_latest(),
            final(self).spec_locks() == old(self).spec_locks(),
            final(self).spec_txs().dom() == old(self).spec_txs().dom().insert(tx.id().0),
            forall|id: u64| id != tx.id().0 && #[trigger] old(self).spec_txs().contains_key(id)
                ==> final(self).spec_txs()[id] == old(self).spec_txs()[id],
            ({
                let stx = final(self).spec_txs()[tx.id().0];
                &&& stx.spec_buffer() == (if stx is Update { None } else {
                    Some(Map::<Seq<u8>, Option<Seq<u8>>>::empty())
                })
                &&& old(self).spec_db() is ReadOnlyDB ==> stx is ReadSnapshot
                &&& old(self).spec_db() is TransactionDB ==> (if tx.spec_update_key() is Some { stx is Update } else {
                    stx is Read
                })
            }),
    {
        let stx = match self.db {
            InnerDB::ReadOnlyDB => StoreTransaction::ReadSnapshot(ReadSnapshot::new()),
            InnerDB::TransactionDB => if tx.is_update_tx() {
                StoreTransaction::Update(UpdateTransaction {})
            } else {
                StoreTransaction::Read(ReadTransaction::new())
            },
        };
        self.txs.insert(tx.get_id().0, stx);
        assert(self.spec_txs().dom() =~= old(self).spec_txs().dom().insert(tx.id().0));
        Ok(())
    }

    /// Ends a running transaction and hands it back for the database side to
    /// be committed or discarded. An update transaction gives up its key's
    /// lock; the key is forgotten with its last open transaction.
    pub fn finalize_tx(&mut self, tx: RocksDBTx<PreparedRocksDBTx>) -> (r: StoreTransaction)
        requires
            old(self).wf(),
            old(self).spec_txs().contains_key(tx.id().0),
            tx.spec_update_key() matches Some(k) ==> old(self).spec_locks().contains_key(k),
        ensures
            final(self).wf(),
            r == old(self).spec_txs()[tx.id().0],
            r.wf(),
            final(self).spec_db() == old(self).spec_db(),
            final(self).spec_latest() == old(self).spec_latest(),
            final(self).spec_txs() == old(self).spec_txs().remove(tx.id().0),
            tx.spec_update_key() is None ==> final(self).spec_locks() == old(self).spec_locks(),
            tx.spec_update_key() matches Some(k) ==> final(self).spec_locks() == locks_after_release(
                old(self).spec_locks(), k),
    {
        proof { self.mutex.lemma_counts_positive(); }
        match &tx.update_key {
            Some(k) => self.mutex.release(k.as_str()),
            None => {},
        }
        match self.txs.remove(tx.get_id().0) {
            Some(stx) => stx,
            None => {
                assert(false);
                StoreTransaction::Update(UpdateTransaction {})
            },
        }
    }

    /// The read of `key` in transaction `tx_id`.
    pub fn tx_get(&self, tx_id: TxId, key: &[u8]) -> (r: Result<TxRead, StoreError>)
        requires
            self.wf(),
        ensures
            match self.spec_txs().get(tx_id.0) {
                None => r matches Err(StoreError::TxIdNotFound { tx_id: t }) && t == tx_id,
                Some(stx) => r matches Ok(rd) && match stx.spec_buffer() {
                    Some(b) => buffered_read(b, key@, rd),
                    None => rd is Database,
                },
            },
    {
        match self.txs.get(tx_id.0) {
            Some(stx) => Ok(stx.get(key)),
            None => Err(StoreError::TxIdNotFound { tx_id }),
        }
    }

    /// Sets `key` to `value` in transaction `tx_id`.
    pub fn tx_set(&mut self, tx_id: TxId, key: Vec<u8>, value: Vec<u8>) -> (r: Result<TxWrite, StoreError>)
        requires
            old(self).wf(),
        ensures
            final(self).wf(),
            final(self).spec_db() == old(self).spec_db(),
            final(self).spec_latest() == old(self).spec_latest(),
            final(self).spec_locks() == old(self).spec_locks(),
            final(self).spec_txs().dom() == old(self).spec_txs().dom(),
            forall|id: u64| id != tx_id.0 && #[trigger] old(self).spec_txs().contains_key(id)
                ==> final(self).spec_txs()[id] == old(self).spec_txs()[id],
            match old(self).spec_txs().get(tx_id.0) {
                None => r matches Err(StoreError::TxIdNotFound { tx_id: t }) && t == tx_id,
                Some(stx) => match stx.spec_buffer() {
                    Some(b) => r matches Ok(TxWrite::Buffered)
                        && final(self).spec_txs()[tx_id.0].spec_buffer() == Some(b.insert(key@, Some(value@))),
                    None => r matches Ok(TxWrite::Database) && final(self).spec_txs()[tx_id.0].spec_buffer() is None,
                },
            },
    {
        match self.txs.remove(tx_id.0) {
            Some(stx) => {
                let mut stx = stx;
                let w = stx.set(key, value);
                self.txs.insert(tx_id.0, stx);
                assert(self.spec_txs().dom() =~= old(self).spec_txs().dom());
                Ok(w)
            },
            None => Err(StoreError::TxIdNotFound { tx_id }),
        }
    }

    /// Deletes `key` in transaction `tx_id`.
    pub fn tx_remove(&mut self, tx_id: TxId, key: &[u8]) -> (r: Result<TxWrite, StoreError>)
        requires
            old(self).wf(),
        ensures
            final(self).wf(),
            final(self).spec_db() == old(self).spec_db(),
            final(self).spec_latest() == old(self).spec_latest(),
            final(self).spec_locks() == old(self).spec_locks(),
            final(self).spec_txs().dom() == old(self).spec_txs().dom(),
            forall|id: u64| id != tx_id.0 && #[trigger] old(self).spec_txs().contains_key(id)
                ==> final(self).spec_txs()[id] == old(self).spec_txs()[id],
            match old(self).spec_txs().get(tx_id.0) {
                None => r matches Err(StoreError::TxIdNotFound { tx_id: t }) && t == tx_id,
                Some(stx) => match stx.spec_buffer() {
                    Some(b) => r matches Ok(TxWrite::Buffered)
                        && final(self).spec_txs()[tx_id.0].spec_buffer() == Some(b.insert(key@, None)),
                    None => r matches Ok(TxWrite::Database) && final(self).spec_txs()[tx_id.0].spec_buffer() is None,
                },
            },
    {
        match self.txs.remove(tx_id.0) {
            Some(stx) => {
                let mut stx = stx;
                let w = stx.remove(key);
                self.txs.insert(tx_id.0, stx);
                assert(self.spec_txs().dom() =~= old(self).spec_txs().dom());
                Ok(w)
            },
            None => Err(StoreError::TxIdNotFound { tx_id }),
        }
    }
}

} // verus!
