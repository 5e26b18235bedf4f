use vstd::prelude::*;
use vstd::string::*;
use crate::bytes::bytes_to_vec;
use crate::decimal::{dec_digits, push_decimal};
use crate::digest::hex_digit;
use crate::errors::TypeError;
use vstd::utf8::encode_utf8;
use crate::speculative::text::{bytes_debug, push_bytes_debug};

verus! {

broadcast use vstd::string::group_string_axioms;

/// Values longer than this are shortened in debug text.
pub const MAX_VALUE_LENGTH_FOR_DEBUG: usize = 4096;

/// A protobuf `Any`: a type URL and the encoded value.
#[derive(Default, Clone, Debug, PartialEq, Eq)]
pub struct Any {
    pub type_url: String,
    pub value: Vec<u8>,
}

impl View for Any {
    type V = (Seq<char>, Seq<u8>);

    open spec fn view(&self) -> (Seq<char>, Seq<u8>) {
        (self.type_url@, self.value@)
    }
}

/// The view of an optional `Any`.
pub open spec fn opt_any_view(o: Option<Any>) -> Option<(Seq<char>, Seq<u8>)> {
    match o {
        Some(a) => Some(a@),
        None => None,
    }
}

impl Any {
    pub fn new(type_url: String, value: Vec<u8>) -> (r: Self)
        ensures
            r.type_url@ == type_url@,
            r.value@ == value@,
    {
        Any { type_url, value }
    }

    /// A copy with the same type URL and value.
    pub fn duplicate(&self) -> (r: Self)
        ensures
            r@ == self@,
    {
        Any { type_url: self.type_url.clone(), value: bytes_to_vec(self.value.as_slice()) }
    }
}

/// The protobuf varint of `n`: seven bits at a time, lowest first, with the
/// high bit set on every byte but the last.
pub open spec fn varint(n: nat) -> Seq<u8>
    decreases n,
{
    if n < 128 {
        seq![n as u8]
    } else {
        seq![(n % 128 + 128) as u8] + varint(n / 128)
    }
}

/// A length-delimited protobuf field: its key (field number times eight,
/// plus two), the data's length and the data; nothing for empty data, the
/// default that proto3 leaves out.
pub open spec fn proto_bytes_field(number: nat, data: Seq<u8>) -> Seq<u8> {
    if data.len() == 0 {
        Seq::empty()
    } else {
        varint(number * 8 + 2) + varint(data.len()) + data
    }
}

/// The protobuf encoding of a `google.protobuf.Any`: the type URL's UTF-8
/// bytes as field 1, the value as field 2.
pub open spec fn any_proto_bytes(a: (Seq<char>, Seq<u8>)) -> Seq<u8> {
    proto_bytes_field(1, encode_utf8(a.0)) + proto_bytes_field(2, a.1)
}

/// The `Any` that the protobuf decoder reads from bytes; `None` where it
/// reports an error.
pub uninterp spec fn proto_any_decode(bytes: Seq<u8>) -> Option<(Seq<char>, Seq<u8>)>;

/// `prost::DecodeError`, the error of a protobuf decoding.
#[verifier::external_type_specification]
#[verifier::external_body]
pub struct ExDecodeError(prost::DecodeError);

/// `prost::Message::encode_to_vec` on a `prost_types::Any` with the given
/// fields: the crate writes each non-empty field as its key, its length as
/// a varint and its bytes, in field order. The contract claims exactly
/// `any_proto_bytes`.
#[verifier::external_body]
fn prost_any_encode(type_url: &str, value: &[u8]) -> (r: Vec<u8>)
    ensures
        r@ == any_proto_bytes((type_url@, value@)),
{
    prost::Message::encode_to_vec(&prost_types::Any { type_url: type_url.to_string(), value: value.to_vec() })
}

/// `prost::Message::decode` into a `prost_types::Any`, whose fields are
/// moved into the library's `Any`. Beyond naming the result, the contract
/// claims that the decoder reads back what the encoder writes.
#[verifier::external_body]
fn prost_any_decode(bytes: &[u8]) -> (r: Result<Any, prost::DecodeError>)
    ensures
        r is Ok <==> proto_any_decode(bytes@) is Some,
        r matches Ok(a) ==> proto_any_decode(bytes@) == Some(a@),
        forall|a: (Seq<char>, Seq<u8>)| #[trigger] any_proto_bytes(a) == bytes@ ==> (r is Ok && r->Ok_0@ == a),
{
    let decoded: Result<prost_types::Any, prost::DecodeError> = prost::Message::decode(bytes);
    match decoded {
        Ok(a) => Ok(Any { type_url: a.type_url, value: a.value }),
        Err(e) => Err(e),
    }
}

impl Any {
    /// The protobuf encoding of the `Any`, `any_proto_bytes`.
    pub fn encode_vec(&self) -> (r: Vec<u8>)
        ensures
            r@ == any_proto_bytes(self@),
    {
        prost_any_encode(self.type_url.as_str(), self.value.as_slice())
    }

    /// Reads an `Any` from its protobuf encoding; a protobuf error when the
    /// decoder refuses the bytes. The encoding of an `Any` reads back as
    /// that `Any`.
    pub fn try_from_vec(value: Vec<u8>) -> (r: Result<Any, TypeError>)
        ensures
            r is Ok <==> proto_any_decode(value@) is Some,
            r matches Ok(a) ==> proto_any_decode(value@) == Some(a@),
            r matches Err(e) ==> e is ProtoError,
            forall|a: (Seq<char>, Seq<u8>)| #[trigger] any_proto_bytes(a) == value@ ==> (r matches Ok(b) && b@ == a),
    {
        match prost_any_decode(value.as_slice()) {
            Ok(a) => Ok(a),
            Err(_) => Err(TypeError::ProtoError),
        }
    }
}

/// A copy of an optional `Any`.
pub fn duplicate_opt_any(o: &Option<Any>) -> (r: Option<Any>)
    ensures
        opt_any_view(r) == opt_any_view(*o),
{
    match o {
        Some(a) => Some(a.duplicate()),
        None => None,
    }
}

/// The lowercase hexadecimal digits of a number below 256, without leading
/// zeros.
pub open spec fn short_hex(n: int) -> Seq<char> {
    if n < 16 {
        seq![hex_digit(n)]
    } else {
        seq![hex_digit(n / 16), hex_digit(n % 16)]
    }
}

/// A character as it appears inside a quoted debug string: the escapes of
/// `\0`, tab, carriage return, newline, backslash and double quote, `\u{..}`
/// for the other ASCII control characters, and every other character as it
/// is (debug formatting in `std` also escapes non-printable characters
/// beyond ASCII).
pub open spec fn escape_char(c: char) -> Seq<char> {
    if c == '\0' {
        seq!['\\', '0']
    } else if c == '\t' {
        seq!['\\', 't']
    } else if c == '\r' {
        seq!['\\', 'r']
    } else if c == '\n' {
        seq!['\\', 'n']
    } else if c == '\\' {
        seq!['\\', '\\']
    } else if c == '"' {
        seq!['\\', '"']
    } else if (c as u32) < 0x20 || (c as u32) == 0x7f {
        seq!['\\', 'u', '{'] + short_hex(c as int) + seq!['}']
    } else {
        seq![c]
    }
}

/// The characters of a string, each escaped.
pub open spec fn escape_str(s: Seq<char>) -> Seq<char>
    decreases s.len(),
{
    if s.len() == 0 {
        Seq::empty()
    } else {
        escape_str(s.drop_last()) + escape_char(s.last())
    }
}

/// All characters are ASCII.
pub open spec fn is_ascii_chars(s: Seq<char>) -> bool {
    forall|i: int| 0 <= i < s.len() ==> (#[trigger] s[i] as u32) < 0x80
}

/// The debug text of a string as `std` writes it: quoted, with escapes.
pub uninterp spec fn str_debug(s: Seq<char>) -> Seq<char>;

/// `<str as core::fmt::Debug>::fmt` (through `format!("{:?}", ..)`): the
/// string in double quotes, each character escaped as `char::escape_debug`
/// does, but a single quote left as it is. The contract names the result,
/// and spells it out for ASCII strings, whose escapes `std` documents: `\0`,
/// `\t`, `\r`, `\n`, backslash and double quote escaped, other control
/// characters as `\u{..}` in lowercase hexadecimal, the rest as they are.
#[verifier::external_body]
fn debug_str(s: &str) -> (r: String)
    ensures
        r@ == str_debug(s@),
        is_ascii_chars(s@) ==> r@ == seq!['"'] + escape_str(s@) + seq!['"'],
{
    format!("{:?}", s)
}

/// The debug text of an `Any`: its type URL quoted, and its value as a byte
/// list, shortened to its first `MAX_VALUE_LENGTH_FOR_DEBUG` bytes and the
/// total length when it is longer.
pub open spec fn any_debug(a: Any) -> Seq<char> {
    "Any { type_url: "@ + str_debug(a.type_url@) + ", value: "@ + (if a.value@.len() > MAX_VALUE_LENGTH_FOR_DEBUG {
        bytes_debug(a.value@.subrange(0, MAX_VALUE_LENGTH_FOR_DEBUG as int)) + " \u{2026} ("@ + dec_digits(
            a.value@.len(),
        ) + " bytes total)"@
    } else {
        bytes_debug(a.value@)
    }) + " }"@
}

impl Any {
    /// The debug text `any_debug`.
    pub fn debug_string(&self) -> (r: String)
        ensures
            r@ == any_debug(*self),
    {
        let mut out = String::from_str("Any { type_url: ");
        let url = debug_str(self.type_url.as_str());
        out.append(url.as_str());
        out.append(", value: ");
        let len = self.value.len();
        if len > MAX_VALUE_LENGTH_FOR_DEBUG {
            push_bytes_debug(&mut out, vstd::slice::slice_subrange(self.value.as_slice(), 0, MAX_VALUE_LENGTH_FOR_DEBUG));
            out.append(" \u{2026} (");
            push_decimal(&mut out, len as u64);
            out.append(" bytes total)");
        } else {
            push_bytes_debug(&mut out, self.value.as_slice());
        }
        out.append(" }");
        assert(out@ =~= any_debug(*self));
        out
    }
}

} // verus!
