use lcp::cache::CacheKVS;
use lcp::commit::{Commit, CommitID, SignedCommit};
use lcp::host::{HostStore, IntoCommitStore};
use lcp::kv::{KVStore, StoreError, TxId};
use lcp::memory::MemStore;
use lcp::overlay::OverlayKVS;
use lcp::rocksdb_store::{InnerDB, RocksDBStore, StoreTransaction, TxRead, TxWrite};
use lcp::transaction::{CommitStore, CreatedTx, Tx, TxAccessor};
use std::collections::{BTreeMap, HashMap};

#[allow(non_snake_case)]
fn B(s: &str) -> Vec<u8> {
    s.as_bytes().to_vec()
}

#[test]
fn test_cache_kvs() {
    let mut mock = MemStore::default();
    mock.set(B("k1"), B("v1"));

    // The test reaches the parent store through the cache, as the store
    // shared with it.
    let mut cache = CacheKVS::new(mock);
    assert_eq!(cache.get(&B("k1")), Some(B("v1")));

    cache.set(B("k1"), B("v2"));
    assert_eq!(cache.get(&B("k1")), Some(B("v2")));
    assert_eq!(cache.parent_mut().get(&B("k1")), Some(B("v2")));

    cache.parent_mut().set(B("k1"), B("v3"));
    assert_eq!(cache.parent_mut().get(&B("k1")), Some(B("v3")));
    assert_eq!(cache.get(&B("k1")), Some(B("v2")));

    cache.parent_mut().remove(&B("k1"));
    assert_eq!(cache.parent_mut().get(&B("k1")), None);
    assert_eq!(cache.get(&B("k1")), Some(B("v2")));

    cache.parent_mut().set(B("k2"), B("v4"));
    assert_eq!(cache.get(&B("k2")), Some(B("v4")));

    assert_eq!(cache.get(&B("k3")), None);
    cache.parent_mut().set(B("k3"), B("v5"));
    assert_eq!(cache.parent_mut().get(&B("k3")), Some(B("v5")));
    assert_eq!(cache.get(&B("k3")), None);
    cache.set(B("k3"), B("v6"));
    assert_eq!(cache.get(&B("k3")), Some(B("v6")));

    cache.remove(&B("k4"));
    cache.parent_mut().set(B("k4"), B("v7"));
    assert_eq!(cache.get(&B("k4")), None);
    assert_eq!(cache.parent_mut().get(&B("k4")), Some(B("v7")));
    cache.set(B("k4"), B("v8"));
    assert_eq!(cache.get(&B("k4")), Some(B("v8")));
}

#[test]
fn overlay_reads_parent_when_missing() {
    let mut parent = MemStore::default();
    parent.set(B("k1"), B("v1"));

    let overlay = OverlayKVS::new(parent);
    assert_eq!(overlay.get(&B("k1")), Some(B("v1")));
    assert_eq!(overlay.get(&B("missing")), None);
}

#[test]
fn overlay_write_shadows_parent_without_mutating_it() {
    let mut parent = MemStore::default();
    parent.set(B("k1"), B("v1"));

    let mut overlay = OverlayKVS::new(parent);
    overlay.set(B("k1"), B("v2"));
    overlay.set(B("k2"), B("v3"));

    assert_eq!(overlay.get(&B("k1")), Some(B("v2")));
    assert_eq!(overlay.get(&B("k2")), Some(B("v3")));

    let (parent, writes) = overlay.into_parts();
    assert_eq!(parent.get(&B("k1")), Some(B("v1")));
    assert_eq!(parent.get(&B("k2")), None);
    assert_eq!(writes.get(&B("k1")), Some(&Some(B("v2"))));
    assert_eq!(writes.get(&B("k2")), Some(&Some(B("v3"))));
}

#[test]
fn overlay_delete_masks_parent_value() {
    let mut parent = MemStore::default();
    parent.set(B("k1"), B("v1"));

    let mut overlay = OverlayKVS::new(parent);
    overlay.remove(&B("k1"));

    assert_eq!(overlay.get(&B("k1")), None);

    let (parent, writes) = overlay.into_parts();
    assert_eq!(parent.get(&B("k1")), Some(B("v1")));
    assert_eq!(writes.get(&B("k1")), Some(&None));
}

#[test]
fn memory_store_commit_and_rollback() {
    let mut store = MemStore::default();
    store.set(B("base"), B("0"));

    let tx = store.create_transaction(None).unwrap();
    assert_eq!(tx.get_id(), TxId(1));
    let tx = tx.prepare().unwrap();
    store.begin(&tx).unwrap();
    store.tx_set(tx.get_id(), B("k"), B("v")).unwrap();
    assert_eq!(store.tx_get(tx.get_id(), &B("k")).unwrap(), Some(B("v")));
    store.commit(tx).unwrap();
    assert_eq!(store.get(&B("k")), Some(B("v")));

    let tx = store.create_transaction(None).unwrap();
    assert_eq!(tx.get_id(), TxId(2));
    let tx = tx.prepare().unwrap();
    store.begin(&tx).unwrap();
    store.tx_remove(tx.get_id(), &B("k")).unwrap();
    store.tx_set(tx.get_id(), B("base"), B("1")).unwrap();
    assert_eq!(store.tx_get(tx.get_id(), &B("k")).unwrap(), None);
    store.rollback(tx);
    assert_eq!(store.get(&B("k")), Some(B("v")));
    assert_eq!(store.get(&B("base")), Some(B("0")));
}

#[test]
fn host_store_delegates_to_memory_store() {
    let mut host = HostStore::Memory(MemStore::default());
    host.tx_set(TxId(1), B("a"), B("b")).unwrap();
    assert_eq!(host.tx_get(TxId(1), &B("a")).unwrap(), Some(B("b")));
    host.tx_remove(TxId(1), &B("a")).unwrap();
    assert_eq!(host.tx_get(TxId(1), &B("a")).unwrap(), None);
}

#[test]
fn tx_id_increments_until_overflow() {
    let mut id = TxId(u64::MAX - 1);
    assert!(id.safe_incr().is_ok());
    assert_eq!(id.value(), u64::MAX);
    assert!(matches!(id.safe_incr(), Err(StoreError::TxIdOverflow)));
    assert_eq!(id, TxId(u64::MAX));
    assert_eq!(TxId(42).to_string(), "42");
}

#[test]
fn commit_sign_message_is_id_then_little_endian_revision() {
    let mut id = [0u8; 32];
    id[0] = 0xaa;
    id[31] = 0xbb;
    let commit = Commit::new(CommitID::new(id), 0x0102_0304_0506_0708);
    let msg = commit.as_sign_msg().unwrap();
    let mut expected = id.to_vec();
    expected.extend_from_slice(&0x0102_0304_0506_0708u64.to_le_bytes());
    assert_eq!(msg, expected);
    let legacy = bincode::serde::encode_to_vec((id, 0x0102_0304_0506_0708u64), bincode::config::legacy()).unwrap();
    assert_eq!(msg, legacy);

    let signed = SignedCommit::new(commit, vec![1, 2], vec![3]);
    assert_eq!(signed.commit.revision, 0x0102_0304_0506_0708);
    assert_eq!(signed.pubkey, vec![1, 2]);
    assert_eq!(signed.signature, vec![3]);
    assert_eq!(CommitID::new(id).into_bytes(), id);
}

/// A key-value database with transactions, standing in for RocksDB: the
/// store model keeps the bookkeeping, this keeps the data.
struct Db {
    committed: HashMap<Vec<u8>, Vec<u8>>,
    pending: HashMap<u64, HashMap<Vec<u8>, Option<Vec<u8>>>>,
    snapshots: HashMap<u64, HashMap<Vec<u8>, Vec<u8>>>,
}

impl Db {
    fn new() -> Self {
        Db { committed: HashMap::new(), pending: HashMap::new(), snapshots: HashMap::new() }
    }

    fn begin(&mut self, id: u64, update: bool) {
        if update {
            self.pending.insert(id, HashMap::new());
        }
        self.snapshots.insert(id, self.committed.clone());
    }

    fn read(&self, id: u64, store: &RocksDBStore, key: &[u8]) -> Option<Vec<u8>> {
        match store.tx_get(TxId(id), key).unwrap() {
            TxRead::Buffered(v) => v,
            TxRead::Database => {
                if let Some(p) = self.pending.get(&id) {
                    if let Some(v) = p.get(key) {
                        return v.clone();
                    }
                }
                self.snapshots[&id].get(key).cloned()
            }
        }
    }

    fn write(&mut self, id: u64, store: &mut RocksDBStore, key: Vec<u8>, value: Option<Vec<u8>>) {
        let w = match &value {
            Some(v) => store.tx_set(TxId(id), key.clone(), v.clone()).unwrap(),
            None => store.tx_remove(TxId(id), &key).unwrap(),
        };
        if w == TxWrite::Database {
            self.pending.get_mut(&id).unwrap().insert(key, value);
        }
    }

    fn finish(&mut self, id: u64, stx: StoreTransaction, commit: bool) {
        self.snapshots.remove(&id);
        if let Some(p) = self.pending.remove(&id) {
            assert!(stx.is_update());
            if commit {
                for (k, v) in p {
                    match v {
                        Some(v) => {
                            self.committed.insert(k, v);
                        }
                        None => {
                            self.committed.remove(&k);
                        }
                    }
                }
            }
        }
    }
}

#[allow(non_snake_case)]
fn K(i: u32) -> Vec<u8> {
    format!("k{}", i).into_bytes()
}

#[allow(non_snake_case)]
fn V(i: u32) -> Vec<u8> {
    format!("v{}", i).into_bytes()
}

#[test]
fn rocksdb_test_store() {
    let mut db = Db::new();
    let mut store = RocksDBStore::create(InnerDB::TransactionDB);

    // case1: set key-value pair simply in update tx
    {
        let tx = store.create_transaction(Some("test".into())).unwrap();
        assert_eq!(store.mutex_len(), 1);
        let tx = tx.prepare().unwrap();
        store.begin(&tx).unwrap();
        let id = tx.get_id().value();
        db.begin(id, tx.is_update_tx());
        db.write(id, &mut store, K(0), Some(V(0)));
        assert_eq!(db.read(id, &store, &K(0)), Some(V(0)));
        let stx = store.finalize_tx(tx);
        db.finish(id, stx, true);
        assert_eq!(store.mutex_len(), 0);
    }

    // case2: get key-value pair simply in read tx
    {
        let tx = store.create_transaction(None).unwrap();
        assert_eq!(store.mutex_len(), 0);
        let tx = tx.prepare().unwrap();
        store.begin(&tx).unwrap();
        let id = tx.get_id().value();
        db.begin(id, tx.is_update_tx());
        assert_eq!(db.read(id, &store, &K(0)), Some(V(0)));
        db.write(id, &mut store, K(0), Some(V(1)));
        assert_eq!(db.read(id, &store, &K(0)), Some(V(1)));
        let stx = store.finalize_tx(tx);
        db.finish(id, stx, true);
        assert_eq!(store.mutex_len(), 0);
    }

    // case3: remove key-value pair simply in read tx
    {
        let tx = store.create_transaction(None).unwrap();
        assert_eq!(store.mutex_len(), 0);
        let tx = tx.prepare().unwrap();
        store.begin(&tx).unwrap();
        let id = tx.get_id().value();
        db.begin(id, tx.is_update_tx());
        db.write(id, &mut store, K(0), None);
        assert_eq!(db.read(id, &store, &K(0)), None);
        let stx = store.finalize_tx(tx);
        db.finish(id, stx, true);
        assert_eq!(store.mutex_len(), 0);
        assert_ne!(db.committed.get(&K(0)), None);
    }

    // case4: remove key-value pair simply in update tx
    {
        let tx = store.create_transaction(Some("test".into())).unwrap();
        assert_eq!(store.mutex_len(), 1);
        let tx = tx.prepare().unwrap();
        store.begin(&tx).unwrap();
        let id = tx.get_id().value();
        db.begin(id, tx.is_update_tx());
        db.write(id, &mut store, K(0), None);
        assert_eq!(db.read(id, &store, &K(0)), None);
        let stx = store.finalize_tx(tx);
        db.finish(id, stx, true);
        assert_eq!(store.mutex_len(), 0);
        assert_eq!(db.committed.get(&K(0)), None);
    }

    // case5: set key-value pair but rollback it
    {
        let tx = store.create_transaction(Some("test".into())).unwrap();
        assert_eq!(store.mutex_len(), 1);
        let tx = tx.prepare().unwrap();
        store.begin(&tx).unwrap();
        let id = tx.get_id().value();
        db.begin(id, tx.is_update_tx());
        db.write(id, &mut store, K(0), Some(V(0)));
        let stx = store.finalize_tx(tx);
        db.finish(id, stx, false);
        assert_eq!(store.mutex_len(), 0);
        assert_eq!(db.committed.get(&K(0)), None);
    }
}

#[test]
fn rocksdb_store_refuses_empty_update_key_and_unknown_tx() {
    let mut store = RocksDBStore::create(InnerDB::TransactionDB);
    match store.create_transaction(Some(String::new())) {
        Err(StoreError::InvalidUpdateKeyLength { length }) => assert_eq!(length, 0),
        _ => panic!("an empty update key must be refused"),
    }
    assert_eq!(store.mutex_len(), 0);
    // the refused transaction still used up an identifier
    let tx = store.create_transaction(None).unwrap();
    assert_eq!(tx.get_id(), TxId(2));
    match store.tx_get(TxId(9), &B("k")) {
        Err(StoreError::TxIdNotFound { tx_id }) => assert_eq!(tx_id, TxId(9)),
        _ => panic!("an unknown transaction must be reported"),
    }
}

#[test]
fn rocksdb_update_key_lock_is_shared_until_last_transaction_ends() {
    let mut store = RocksDBStore::create(InnerDB::TransactionDB);
    let t1 = store.create_transaction(Some("a".into())).unwrap().prepare().unwrap();
    let t2 = store.create_transaction(Some("a".into())).unwrap().prepare().unwrap();
    let t3 = store.create_transaction(Some("b".into())).unwrap().prepare().unwrap();
    assert_eq!(store.mutex_len(), 2);
    store.begin(&t1).unwrap();
    store.begin(&t2).unwrap();
    store.begin(&t3).unwrap();
    let _ = store.finalize_tx(t1);
    assert_eq!(store.mutex_len(), 2);
    let _ = store.finalize_tx(t2);
    assert_eq!(store.mutex_len(), 1);
    let _ = store.finalize_tx(t3);
    assert_eq!(store.mutex_len(), 0);
}

#[test]
fn rocksdb_read_only_database_ignores_update_key() {
    let mut store = RocksDBStore::create(InnerDB::ReadOnlyDB);
    let tx = store.create_transaction(Some("test".into())).unwrap();
    assert!(!tx.is_update_tx());
    assert_eq!(store.mutex_len(), 0);
    let tx = tx.prepare().unwrap();
    store.begin(&tx).unwrap();
    assert_eq!(store.tx_set(tx.get_id(), B("k"), B("v")).unwrap(), TxWrite::Buffered);
    assert!(matches!(store.tx_get(tx.get_id(), &B("k")).unwrap(), TxRead::Buffered(Some(v)) if v == B("v")));
    assert!(matches!(store.tx_get(tx.get_id(), &B("other")).unwrap(), TxRead::Database));
    let stx = store.finalize_tx(tx);
    assert!(matches!(stx, StoreTransaction::ReadSnapshot(_)));
}

/// Database transactions kept beside the store's bookkeeping, under the
/// identifiers that the store hands out: each reads a snapshot of what was
/// committed when it began, with its own writes on top.
struct TxDb {
    committed: BTreeMap<Vec<u8>, Vec<u8>>,
    open: BTreeMap<u64, (BTreeMap<Vec<u8>, Vec<u8>>, BTreeMap<Vec<u8>, Vec<u8>>)>,
}

impl TxDb {
    fn new() -> Self {
        Self { committed: BTreeMap::new(), open: BTreeMap::new() }
    }

    fn begin(&mut self, store: &mut lcp::store_rocksdb::RocksDBStore) -> TxId {
        let id = store.begin().unwrap();
        self.open.insert(id.value(), (self.committed.clone(), BTreeMap::new()));
        id
    }

    fn tx_set(&mut self, store: &lcp::store_rocksdb::RocksDBStore, id: TxId, k: Vec<u8>, v: Vec<u8>) -> Result<(), StoreError> {
        store.check_running(id)?;
        self.open.get_mut(&id.value()).unwrap().1.insert(k, v);
        Ok(())
    }

    fn tx_get(&self, store: &lcp::store_rocksdb::RocksDBStore, id: TxId, k: &[u8]) -> Result<Option<Vec<u8>>, StoreError> {
        store.check_running(id)?;
        let (snapshot, writes) = self.open.get(&id.value()).unwrap();
        Ok(writes.get(k).or_else(|| snapshot.get(k)).cloned())
    }

    fn commit(&mut self, store: &mut lcp::store_rocksdb::RocksDBStore, id: TxId) {
        store.finish(id);
        let (_, writes) = self.open.remove(&id.value()).unwrap();
        self.committed.extend(writes);
    }
}

fn store_key(idx: u32) -> Vec<u8> {
    format!("k{}", idx).into_bytes()
}

fn store_value(idx: u32) -> Vec<u8> {
    format!("v{}", idx).into_bytes()
}

#[test]
fn store_test_store() {
    let mut store = lcp::store_rocksdb::RocksDBStore::create();
    let mut db = TxDb::new();
    let tx_id = db.begin(&mut store);
    db.tx_set(&store, tx_id, store_key(0), store_value(0)).unwrap();
    assert!(db.tx_get(&store, tx_id, &store_key(0)).unwrap().eq(&Some(store_value(0))));
    db.commit(&mut store, tx_id);

    let tx_id = db.begin(&mut store);
    assert!(db.tx_get(&store, tx_id, &store_key(0)).unwrap().eq(&Some(store_value(0))));
    db.commit(&mut store, tx_id);
}

#[test]
fn store_rejects_unknown_and_finished_transactions() {
    let mut store = lcp::store_rocksdb::RocksDBStore::create();
    let first = store.begin().unwrap();
    assert_eq!(first.value(), 1);
    let second = store.begin().unwrap();
    assert_eq!(second.value(), 2);
    assert!(store.check_running(first).is_ok());
    store.finish(first);
    assert!(matches!(store.check_running(first), Err(StoreError::TxIdNotFound { tx_id }) if tx_id == first));
    assert!(store.check_running(second).is_ok());
}

#[test]
fn host_store_applies_to_its_memory_store() {
    let mut host = HostStore::Memory(MemStore::default());
    let id = host.apply(|store: &mut MemStore| {
        let tx = store.create_transaction(None).unwrap().prepare().unwrap();
        store.begin(&tx).unwrap();
        store.tx_set(tx.get_id(), B("a"), B("b")).unwrap();
        let id = tx.get_id();
        store.commit(tx).unwrap();
        id
    });
    assert_eq!(id, TxId(1));
    let value = host.apply(|store: &mut MemStore| store.get(&B("a")));
    assert_eq!(value, Some(B("b")));
}

#[test]
fn read_only_store_creates_read_transactions() {
    let mut store = RocksDBStore::open_read_only();
    let tx = store.create_transaction(Some("test".into())).unwrap();
    assert_eq!(store.mutex_len(), 0);
    assert!(!tx.is_update_tx());
}
