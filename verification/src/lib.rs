//! Verified core of a light-client proxy: client identifiers, heights and
//! timestamps, key-value stores with transactions and overlays, validation of
//! speculative update-client batches, and enclave metadata inspection.

pub mod bytes;
pub mod digest;
pub mod rlpcodec;
pub mod vecmap;
pub mod idmap;
pub mod keycounts;
pub mod decimal;
pub mod errors;
pub mod height;
pub mod client_id;
pub mod store_key;
pub mod time;
pub mod kv;
pub mod transaction;
pub mod memory;
pub mod rocksdb_store;
pub mod store_rocksdb;
pub mod host;
pub mod overlay;
pub mod cache;
pub mod any;
pub mod sgx;
pub mod validation_context;
pub mod commit;
pub mod settings;
pub mod zkvm;
pub mod speculative;
pub mod elc;
pub mod client_lock;
