use vstd::prelude::*;
use vstd::string::*;
use crate::bytes::bytes_to_vec;
use crate::decimal::{dec_digits, push_decimal};
use crate::height::{Height, height_text};

verus! {

broadcast use vstd::string::group_string_axioms;

/// `"clients/" + client_id + suffix`.
pub open spec fn client_path(client_id: Seq<char>, suffix: Seq<char>) -> Seq<char> {
    "clients/"@ + client_id + suffix
}

/// `"clients/{client_id}/{kind}/{revision_number}-{revision_height}"`.
pub open spec fn client_height_path(client_id: Seq<char>, kind: Seq<char>, height: Height) -> Seq<char> {
    "clients/"@ + client_id + "/"@ + kind + "/"@ + height_text(height)
}

/// Builds `clients/{client_id}/{suffix}`-style keys: the fixed prefix, the
/// identifier, then the suffix.
fn client_prefixed(client_id: &str, suffix: &str) -> (s: String)
    ensures
        s@ == client_path(client_id@, suffix@),
{
    let mut s = String::from_str("clients/");
    s.append(client_id);
    s.append(suffix);
    assert(s@ =~= client_path(client_id@, suffix@));
    s
}

/// Builds a per-height key of the given kind.
fn client_height_key(client_id: &str, kind: &str, height: &Height) -> (s: String)
    ensures
        s@ == client_height_path(client_id@, kind@, *height),
{
    let mut s = String::from_str("clients/");
    s.append(client_id);
    s.append("/");
    s.append(kind);
    s.append("/");
    push_decimal(&mut s, height.revision_number());
    s.append("-");
    push_decimal(&mut s, height.revision_height());
    proof { reveal_strlit("-"); }
    assert(s@ =~= client_height_path(client_id@, kind@, *height));
    s
}

/// `clients/{client_id}/clientType`.
pub fn client_type(client_id: &str) -> (s: String)
    ensures
        s@ == client_path(client_id@, "/clientType"@),
{
    client_prefixed(client_id, "/clientType")
}

/// `clients/{client_id}/clientState`: the latest client state.
pub fn client_state(client_id: &str) -> (s: String)
    ensures
        s@ == client_path(client_id@, "/clientState"@),
{
    client_prefixed(client_id, "/clientState")
}

/// `clients/{client_id}/clientStates/{revision_number}-{revision_height}`:
/// the client state recorded at a given height.
pub fn client_state_at_height(client_id: &str, height: &Height) -> (s: String)
    ensures
        s@ == client_height_path(client_id@, "clientStates"@, *height),
{
    client_height_key(client_id, "clientStates", height)
}

/// `clients/{client_id}/stateIds/{revision_number}-{revision_height}`.
pub fn state_id(client_id: &str, height: &Height) -> (s: String)
    ensures
        s@ == client_height_path(client_id@, "stateIds"@, *height),
{
    client_height_key(client_id, "stateIds", height)
}

/// `clients/{client_id}/consensusStates/{revision_number}-{revision_height}`.
pub fn consensus_state(client_id: &str, height: &Height) -> (s: String)
    ensures
        s@ == client_height_path(client_id@, "consensusStates"@, *height),
{
    client_height_key(client_id, "consensusStates", height)
}

/// The UTF-8 bytes of a key.
fn key_bytes(s: String) -> (r: Vec<u8>)
    ensures
        r@ == vstd::utf8::encode_utf8(s@),
{
    bytes_to_vec(s.as_str().as_bytes())
}

pub fn client_type_bytes(client_id: &str) -> (r: Vec<u8>)
    ensures
        r@ == vstd::utf8::encode_utf8(client_path(client_id@, "/clientType"@)),
{
    key_bytes(client_type(client_id))
}

pub fn client_state_bytes(client_id: &str) -> (r: Vec<u8>)
    ensures
        r@ == vstd::utf8::encode_utf8(client_path(client_id@, "/clientState"@)),
{
    key_bytes(client_state(client_id))
}

pub fn client_state_at_height_bytes(client_id: &str, height: &Height) -> (r: Vec<u8>)
    ensures
        r@ == vstd::utf8::encode_utf8(client_height_path(client_id@, "clientStates"@, *height)),
{
    key_bytes(client_state_at_height(client_id, height))
}

pub fn state_id_bytes(client_id: &str, height: &Height) -> (r: Vec<u8>)
    ensures
        r@ == vstd::utf8::encode_utf8(client_height_path(client_id@, "stateIds"@, *height)),
{
    key_bytes(state_id(client_id, height))
}

pub fn consensus_state_bytes(client_id: &str, height: &Height) -> (r: Vec<u8>)
    ensures
        r@ == vstd::utf8::encode_utf8(client_height_path(client_id@, "consensusStates"@, *height)),
{
    key_bytes(consensus_state(client_id, height))
}

/// The per-height client state key extends the singleton client state key
/// with `s/`, so the two never coincide.
pub proof fn lemma_client_state_keys_distinct(client_id: Seq<char>, height: Height)
    ensures
        client_height_path(client_id, "clientStates"@, height)
            == client_path(client_id, "/clientState"@) + "s/"@ + height_text(height),
        client_height_path(client_id, "clientStates"@, height) != client_path(client_id, "/clientState"@),
{
    reveal_strlit("clients/");
    reveal_strlit("/");
    reveal_strlit("clientStates");
    reveal_strlit("/clientState");
    reveal_strlit("s/");
    let a = client_height_path(client_id, "clientStates"@, height);
    let b = client_path(client_id, "/clientState"@) + "s/"@ + height_text(height);
    assert(a =~= b);
    assert(a.len() > client_path(client_id, "/clientState"@).len());
}

} // verus!
