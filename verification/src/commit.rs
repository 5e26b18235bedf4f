use vstd::prelude::*;
use crate::kv::StoreError;

verus! {

/// The identifier of a commit: a 32-byte digest.
#[derive(Debug, Clone, Copy, PartialEq, Eq)]
pub struct CommitID(pub [u8; 32]);

impl CommitID {
    pub fn new(bz: [u8; 32]) -> (r: Self)
        ensures
            r.0 == bz,
    {
        CommitID(bz)
    }

    /// The digest's bytes.
    pub fn into_bytes(self) -> (r: [u8; 32])
        ensures
            r == self.0,
    {
        self.0
    }
}

/// A commit: its identifier and the store revision it produced.
#[derive(Debug, Clone, Copy, PartialEq, Eq)]
pub struct Commit {
    pub id: CommitID,
    pub revision: u64,
}

/// The eight little-endian bytes of a `u64`.
pub open spec fn le_bytes_u64(n: u64) -> Seq<u8> {
    seq![
        (n % 0x100) as u8,
        ((n / 0x100) % 0x100) as u8,
        ((n / 0x1_0000) % 0x100) as u8,
        ((n / 0x100_0000) % 0x100) as u8,
        ((n / 0x1_0000_0000) % 0x100) as u8,
        ((n / 0x100_0000_0000) % 0x100) as u8,
        ((n / 0x1_0000_0000_0000) % 0x100) as u8,
        ((n / 0x100_0000_0000_0000) % 0x100) as u8,
    ]
}

/// The message a commit is signed as: the identifier's 32 bytes, then the
/// revision as eight little-endian bytes (the fixed-width binary layout of
/// the pair).
pub open spec fn commit_sign_msg(c: Commit) -> Seq<u8> {
    c.id.0@ + le_bytes_u64(c.revision)
}

#[verifier::external_type_specification]
#[verifier::external_body]
pub struct ExEncodeError(bincode::error::EncodeError);

/// `bincode::serde::encode_to_vec` with `bincode::config::legacy()` (the
/// bincode 1 layout: fixed-width little-endian integers, no size limit) on
/// the pair of a 32-byte array and a `u64`. That layout writes an array as
/// its bytes in order, with no length, and the `u64` as eight little-endian
/// bytes; the encoder writes into a growing `Vec` and has no failing path
/// for these values. The contract claims exactly those bytes, and success.
#[verifier::external_body]
fn bincode_encode_pair(id: [u8; 32], revision: u64) -> (r: Result<Vec<u8>, bincode::error::EncodeError>)
    ensures
        r is Ok,
        r matches Ok(v) ==> v@ == id@ + le_bytes_u64(revision),
{
    bincode::serde::encode_to_vec((id, revision), bincode::config::legacy())
}

impl Commit {
    pub fn new(id: CommitID, revision: u64) -> (r: Self)
        ensures
            r.id == id,
            r.revision == revision,
    {
        Commit { id, revision }
    }

    /// The bytes that are signed for this commit, `commit_sign_msg`: the
    /// binary (bincode) encoding of the pair.
    pub fn as_sign_msg(&self) -> (r: Result<Vec<u8>, StoreError>)
        ensures
            r matches Ok(v) && v@ == commit_sign_msg(*self),
    {
        match bincode_encode_pair(self.id.0, self.revision) {
            Ok(v) => Ok(v),
            Err(_) => Err(StoreError::BincodeError),
        }
    }
}

/// A commit with the public key and signature of its signer.
#[derive(Debug, Clone)]
pub struct SignedCommit {
    pub commit: Commit,
    pub pubkey: Vec<u8>,
    pub signature: Vec<u8>,
}

impl SignedCommit {
    pub fn new(commit: Commit, pubkey: Vec<u8>, signature: Vec<u8>) -> (r: Self)
        ensures
            r.commit == commit,
            r.pubkey == pubkey,
            r.signature == signature,
    {
        SignedCommit { commit, pubkey, signature }
    }
}

} // verus!
