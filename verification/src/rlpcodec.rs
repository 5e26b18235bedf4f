use vstd::prelude::*;

verus! {

/// The big-endian bytes of `n` without leading zeros; empty for zero.
pub open spec fn be_bytes(n: nat) -> Seq<u8>
    decreases n,
{
    if n == 0 {
        Seq::empty()
    } else {
        be_bytes(n / 256).push((n % 256) as u8)
    }
}

/// The RLP encoding of an unsigned integer: one byte below 0x80 stands for
/// itself, zero is the empty string, anything else is its big-endian bytes
/// behind a length prefix.
pub open spec fn rlp_uint(n: nat) -> Seq<u8> {
    if n == 0 {
        seq![0x80u8]
    } else if n < 0x80 {
        seq![n as u8]
    } else {
        seq![(0x80 + be_bytes(n).len()) as u8] + be_bytes(n)
    }
}

/// Every number below `256^k` has at most `k` big-endian bytes.
proof fn lemma_be_bytes_len(n: nat, k: nat, bound: nat)
    requires
        bound == pow256(k),
        n < bound,
    ensures
        be_bytes(n).len() <= k,
    decreases k,
{
    if n > 0 && k > 0 {
        lemma_be_bytes_len(n / 256, (k - 1) as nat, pow256((k - 1) as nat));
    }
}

/// `256` to the power `k`.
spec fn pow256(k: nat) -> nat
    decreases k,
{
    if k == 0 {
        1
    } else {
        256 * pow256((k - 1) as nat)
    }
}

/// The encoding of a `u128` takes at most seventeen bytes.
pub(crate) proof fn lemma_rlp_uint_u128_len(n: u128)
    ensures
        rlp_uint(n as nat).len() <= 17,
{
    reveal_with_fuel(pow256, 17);
    assert(pow256(16) == 0x1_0000_0000_0000_0000_0000_0000_0000_0000nat);
    lemma_be_bytes_len(n as nat, 16, pow256(16));
}

/// The RLP encoding of a list whose items encode to `payload`: a short
/// header below 56 bytes of payload, a long one (the payload length in
/// big-endian bytes) from there on.
pub open spec fn rlp_list(payload: Seq<u8>) -> Seq<u8> {
    if payload.len() < 56 {
        seq![(0xc0 + payload.len()) as u8] + payload
    } else {
        seq![(0xf7 + be_bytes(payload.len()).len()) as u8] + be_bytes(payload.len()) + payload
    }
}

/// The items' encodings one after the other.
pub open spec fn concat(items: Seq<Seq<u8>>) -> Seq<u8>
    decreases items.len(),
{
    if items.len() == 0 {
        Seq::empty()
    } else {
        concat(items.drop_last()) + items.last()
    }
}

/// The encodings of unsigned integers one after the other.
pub open spec fn uints(ns: Seq<u128>) -> Seq<u8>
    decreases ns.len(),
{
    if ns.len() == 0 {
        Seq::empty()
    } else {
        uints(ns.drop_last()) + rlp_uint(ns.last() as nat)
    }
}

/// An item that is an unsigned integer's encoding, or a list of such.
pub open spec fn plain_item(x: Seq<u8>) -> bool {
    ||| exists|n: u128| x == #[trigger] rlp_uint(n as nat)
    ||| exists|ns: Seq<u128>| x == rlp_list(#[trigger] uints(ns))
}

/// Every item is a plain one.
pub open spec fn plain_items(items: Seq<Seq<u8>>) -> bool {
    forall|i: int| 0 <= i < items.len() ==> plain_item(#[trigger] items[i])
}

/// The item at `index` of the RLP list `bytes`, as `rlp::Rlp::at` reads
/// it; `None` where it reports an error.
pub uninterp spec fn rlp_list_item(bytes: Seq<u8>, index: nat) -> Option<Seq<u8>>;

/// The `u64` at `index` of the RLP list `bytes`, as `rlp::Rlp::val_at`
/// reads it; `None` where it reports an error.
pub uninterp spec fn rlp_list_u64(bytes: Seq<u8>, index: nat) -> Option<u64>;

/// `rlp::encode` on a `u128`: the crate writes an unsigned integer as its
/// big-endian bytes without leading zeros, as a byte string (a single byte
/// below 0x80 stands for itself). The contract claims exactly `rlp_uint`.
#[verifier::external_body]
pub(crate) fn rlp_encode_uint(value: u128) -> (r: Vec<u8>)
    ensures
        r@ == rlp_uint(value as nat),
{
    rlp::encode(&value).to_vec()
}

/// `rlp::RlpStream::new_list`, `append_raw` and `out`: a list of
/// `item_count` items whose encodings, already made, are `payload`. The
/// stream puts the list header in front of the payload once the announced
/// items are in; the contract claims exactly `rlp_list(payload)`. The
/// stream writes the payload's length as a `u32`, so the payload must be
/// shorter than 2^32 bytes.
#[verifier::external_body]
pub(crate) fn rlp_encode_list(payload: &[u8], item_count: usize) -> (r: Vec<u8>)
    requires
        item_count > 0,
        payload@.len() < 0x1_0000_0000,
    ensures
        r@ == rlp_list(payload@),
{
    let mut stream = rlp::RlpStream::new_list(item_count);
    stream.append_raw(payload, item_count);
    stream.out().to_vec()
}

/// `rlp::Rlp::new(bytes).at(index)`, as the bytes of the item found; `None`
/// where the crate reports an error. Beyond naming the result, the contract
/// claims what the crate's list walk gives on a list of plain items: the
/// item at `index`.
#[verifier::external_body]
pub(crate) fn rlp_item_at(bytes: &[u8], index: usize) -> (r: Option<Vec<u8>>)
    ensures
        r is Some <==> rlp_list_item(bytes@, index as nat) is Some,
        r matches Some(v) ==> rlp_list_item(bytes@, index as nat) == Some(v@),
        forall|items: Seq<Seq<u8>>|
            #![trigger concat(items)]
            bytes@ == rlp_list(concat(items)) && plain_items(items) && index < items.len()
                ==> (r is Some && r->0@ == items[index as int]),
{
    rlp::Rlp::new(bytes).at(index).ok().map(|item| item.as_raw().to_vec())
}

/// `rlp::Rlp::new(bytes).val_at::<u64>(index)`; `None` where the crate
/// reports an error. Beyond naming the result, the contract claims what the
/// crate gives on a list of plain items whose item at `index` encodes `n`:
/// `n` when it fits in a `u64`, an error (too big) otherwise.
#[verifier::external_body]
pub(crate) fn rlp_u64_at(bytes: &[u8], index: usize) -> (r: Option<u64>)
    ensures
        r == rlp_list_u64(bytes@, index as nat),
        forall|items: Seq<Seq<u8>>, n: u128|
            #![trigger concat(items), rlp_uint(n as nat)]
            bytes@ == rlp_list(concat(items)) && plain_items(items) && index < items.len()
                && items[index as int] == rlp_uint(n as nat)
                ==> (if n <= u64::MAX { r == Some(n as u64) } else { r is None }),
{
    rlp::Rlp::new(bytes).val_at::<u64>(index).ok()
}

} // verus!
