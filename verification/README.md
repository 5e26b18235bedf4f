# lcp

The verified core of a light-client proxy that runs light clients inside an
SGX enclave and serves them to relayers.

`src/` is the library, verified with Verus:

- basic types: heights (`height`), client identifiers (`client_id`), store
  keys (`store_key`), timestamps and durations (`time`), protobuf `Any`
  and its encoding (`any`, through `prost`), enclave measurements and
  metadata (`sgx`);
- stores: the key-value store trait and write sets (`kv`, `vecmap`),
  transactions (`transaction`), the in-memory store (`memory`), overlays and
  caches over another store (`overlay`, `cache`), the transaction bookkeeping
  of RocksDB-backed stores (`rocksdb_store`, `store_rocksdb`), commits and
  their signing message (`commit`, through `bincode`);
- validation parameters and the Tendermint validation predicate
  (`validation_context`), encoded with the `rlp` crate behind the contracts
  of `rlpcodec`;
- speculative update-client batches (`speculative`): request validation,
  the batch stream decoder and header memory budget, the streaming scheduler,
  the permit pool, and the stitching of executed units;
- stream decoding for plain update-client streams (`elc`), per-client update
  serialization (`client_lock`), prover selection (`zkvm`), settings.

The enclave is reached through `EnclaveSession`, which keeps a ghost record
of the calls made on it, so that the contracts of the speculative service
say what the enclave is asked, how often, and what is made of its answers.

Not in this crate: the Tendermint light client itself (header verification
against the `ibc` and `tendermint-light-client-verifier` crates), the RocksDB
database (the library keeps the transaction bookkeeping around it), the gRPC
services, and the zkVM prover. Their decisions that can stand apart from
those crates are in `src/`.

`app/` holds what runs around it: worker threads and blocking waits, the
process environment, and reading the enclave's raw metadata.

Calls into outside crates (`sha2`, `hex`, `rlp`, `bincode`, `prost`) stand
behind small trusted wrappers whose contracts say what the crate computes.

`tests/` exercises the library on concrete values.
