use vstd::prelude::*;
use vstd::string::*;
use crate::bytes::bytes_eq;
use crate::decimal::{dec_digits, lemma_dec_digits, lemma_parse_dec_digits, parse_u64, parse_u64_spec, push_decimal, all_digits, is_digit};
use crate::errors::TypeError;

verus! {

broadcast use vstd::string::group_string_axioms;

/// Whether a character has Unicode's alphabetic or numeric property, as
/// `char::is_alphanumeric` decides.
pub uninterp spec fn unicode_alphanumeric(c: char) -> bool;

/// An ASCII letter or digit.
pub open spec fn ascii_alphanumeric(c: char) -> bool {
    ('0' <= c && c <= '9') || ('a' <= c && c <= 'z') || ('A' <= c && c <= 'Z')
}

/// Whether a character is alphanumeric: for ASCII, a letter or a digit;
/// beyond ASCII, Unicode's alphabetic or numeric property.
pub open spec fn is_alphanumeric_char(c: char) -> bool {
    if (c as u32) < 0x80 {
        ascii_alphanumeric(c)
    } else {
        unicode_alphanumeric(c)
    }
}

/// `char::is_alphanumeric`: true for a character with Unicode's alphabetic
/// or numeric property. Among ASCII characters those are exactly the
/// letters and the digits, which the contract states; beyond ASCII it names
/// the result.
#[verifier::external_body]
fn char_is_alphanumeric(c: char) -> (r: bool)
    ensures
        r == unicode_alphanumeric(c),
        (c as u32) < 0x80 ==> r == ascii_alphanumeric(c),
{
    c.is_alphanumeric()
}

/// Compares two strings for equality.
pub fn str_eq(a: &str, b: &str) -> (r: bool)
    ensures
        r == (a@ == b@),
{
    let r = bytes_eq(a.as_bytes(), b.as_bytes());
    proof {
        vstd::utf8::encode_utf8_decode_utf8(a@);
        vstd::utf8::encode_utf8_decode_utf8(b@);
    }
    r
}

/// The special characters an identifier may hold besides alphanumerics.
pub open spec fn is_valid_special_char(c: char) -> bool {
    c == '.' || c == '_' || c == '+' || c == '-' || c == '#' || c == '[' || c == ']' || c == '<' || c == '>'
}

/// A character an identifier may hold.
pub open spec fn is_identifier_char(c: char) -> bool {
    is_alphanumeric_char(c) || is_valid_special_char(c)
}

/// The byte length of a string in UTF-8.
pub open spec fn utf8_len(s: Seq<char>) -> nat {
    vstd::utf8::encode_utf8(s).len()
}

/// Why an identifier is rejected, in the order the checks are made.
#[derive(PartialEq, Eq, Structural, Clone, Copy, Debug)]
pub enum IdentifierFault {
    Empty,
    ContainsSeparator,
    InvalidLength,
    InvalidCharacter,
}

/// The first failing identifier check, if any: not empty, no `/`, a UTF-8
/// length within `[min, max]`, and only identifier characters.
pub open spec fn identifier_fault(id: Seq<char>, min: nat, max: nat) -> Option<IdentifierFault> {
    if id.len() == 0 {
        Some(IdentifierFault::Empty)
    } else if id.contains('/') {
        Some(IdentifierFault::ContainsSeparator)
    } else if utf8_len(id) < min || utf8_len(id) > max {
        Some(IdentifierFault::InvalidLength)
    } else if exists|i: int| 0 <= i < id.len() && !is_identifier_char(#[trigger] id[i]) {
        Some(IdentifierFault::InvalidCharacter)
    } else {
        None
    }
}

/// The error value that the check raises for a fault.
pub open spec fn fault_matches(e: TypeError, f: IdentifierFault, id: Seq<char>, min: nat, max: nat) -> bool {
    match f {
        IdentifierFault::Empty => e is ClientIdEmpty,
        IdentifierFault::ContainsSeparator => e matches TypeError::ClientIdContainSeparator { id: x } && x@ == id,
        IdentifierFault::InvalidLength => e matches TypeError::ClientIdInvalidLength { id: x, length, min: a, max: b }
            && x@ == id && length == utf8_len(id) && a == min && b == max,
        IdentifierFault::InvalidCharacter => e matches TypeError::ClientIdInvalidCharacter { id: x } && x@ == id,
    }
}

/// Checks that an identifier is not empty, holds no `/`, is between `min`
/// and `max` bytes long, and holds only alphanumerics and `._+-#[]<>`.
pub fn validate_identifier(id: &str, min: usize, max: usize) -> (r: Result<(), TypeError>)
    requires
        max >= min,
    ensures
        match identifier_fault(id@, min as nat, max as nat) {
            None => r is Ok,
            Some(f) => r matches Err(e) && fault_matches(e, f, id@, min as nat, max as nat),
        },
{
    let n = id.unicode_len();
    if n == 0 {
        return Err(TypeError::ClientIdEmpty);
    }
    let mut i: usize = 0;
    while i < n
        invariant
            n == id@.len(),
            i <= n,
            forall|j: int| 0 <= j < i ==> id@[j] != '/',
        decreases n - i,
    {
        if id.get_char(i) == '/' {
            proof {
                assert(id@[i as int] == '/');
                assert(id@.contains('/'));
            }
            return Err(TypeError::ClientIdContainSeparator { id: id.to_owned() });
        }
        i = i + 1;
    }
    assert(!id@.contains('/'));
    let len = id.as_bytes().len();
    assert(len == utf8_len(id@));
    if len < min || len > max {
        return Err(TypeError::ClientIdInvalidLength { id: id.to_owned(), length: len, min, max });
    }
    let mut k: usize = 0;
    while k < n
        invariant
            n == id@.len(),
            k <= n,
            n > 0,
            !id@.contains('/'),
            min <= utf8_len(id@) <= max,
            forall|j: int| 0 <= j < k ==> is_identifier_char(#[trigger] id@[j]),
        decreases n - k,
    {
        let c = id.get_char(k);
        let ok = char_is_alphanumeric(c) || c == '.' || c == '_' || c == '+' || c == '-' || c == '#'
            || c == '[' || c == ']' || c == '<' || c == '>';
        if !ok {
            assert(!is_identifier_char(id@[k as int]));
            return Err(TypeError::ClientIdInvalidCharacter { id: id.to_owned() });
        }
        k = k + 1;
    }
    Ok(())
}

/// The identifier check used for client identifiers: 9 to 64 bytes.
pub fn validate_client_identifier(id: &str) -> (r: Result<(), TypeError>)
    ensures
        match identifier_fault(id@, 9, 64) {
            None => r is Ok,
            Some(f) => r matches Err(e) && fault_matches(e, f, id@, 9, 64),
        },
{
    validate_identifier(id, 9, 64)
}

/// The position of the last `-` in `s`, if any.
pub open spec fn last_dash(s: Seq<char>) -> Option<int> {
    if exists|i: int| 0 <= i < s.len() && s[i] == '-' {
        Some(choose|i: int| 0 <= i < s.len() && s[i] == '-' && forall|j: int| i < j < s.len() ==> s[j] != '-')
    } else {
        None
    }
}

pub proof fn lemma_last_dash(s: Seq<char>, i: int)
    requires
        0 <= i < s.len(),
        s[i] == '-',
        forall|j: int| i < j < s.len() ==> s[j] != '-',
    ensures
        last_dash(s) == Some(i),
{
    let c = choose|k: int| 0 <= k < s.len() && s[k] == '-' && forall|j: int| k < j < s.len() ==> s[j] != '-';
    assert(0 <= i < s.len() && s[i] == '-' && forall|j: int| i < j < s.len() ==> s[j] != '-');
    if c < i {
        assert(s[i] != '-');
    }
    if c > i {
        assert(s[c] != '-');
    }
}

/// Why a client identifier does not fit `{client_type}-{counter}`.
#[derive(PartialEq, Eq, Structural, Clone, Copy, Debug)]
pub enum ClientIdFault {
    Identifier(IdentifierFault),
    InvalidFormat,
    InvalidClientType,
    InvalidCounter,
    CounterParse,
}

/// The first failing check of a client identifier against a client type: it
/// is a valid identifier; its part before the last `-` is the client type;
/// the part after it has no leading zero and reads as a 64-bit number.
pub open spec fn client_id_fault(id: Seq<char>, client_type: Seq<char>) -> Option<ClientIdFault> {
    match identifier_fault(id, 9, 64) {
        Some(f) => Some(ClientIdFault::Identifier(f)),
        None => match last_dash(id) {
            None => Some(ClientIdFault::InvalidFormat),
            Some(pos) => {
                let counter = id.subrange(pos + 1, id.len() as int);
                if id.subrange(0, pos) != client_type {
                    Some(ClientIdFault::InvalidClientType)
                } else if counter.len() > 1 && counter[0] == '0' {
                    Some(ClientIdFault::InvalidCounter)
                } else if parse_u64_spec(counter) is None {
                    Some(ClientIdFault::CounterParse)
                } else {
                    None
                }
            },
        },
    }
}

/// The error value raised for a client identifier fault.
pub open spec fn client_fault_matches(e: TypeError, f: ClientIdFault, id: Seq<char>, client_type: Seq<char>) -> bool {
    match f {
        ClientIdFault::Identifier(g) => fault_matches(e, g, id, 9, 64),
        ClientIdFault::InvalidFormat => e matches TypeError::ClientIdInvalidFormat { id: x } && x@ == id,
        ClientIdFault::InvalidClientType => e matches TypeError::ClientIdInvalidClientType { id: x, client_type: t }
            && x@ == id && t@ == client_type,
        ClientIdFault::InvalidCounter => e matches TypeError::ClientIdInvalidCounter { id: x } && x@ == id,
        ClientIdFault::CounterParse => e matches TypeError::ClientIdInvalidCounterParseIntError { id: x } && x@ == id,
    }
}

/// The identifier of an enclave light client, `{client_type}-{counter}`.
#[derive(Clone, Debug, PartialEq, Eq, PartialOrd, Ord, Hash)]
pub struct ClientId(String);

/// The text of `{client_type}-{counter}`.
pub open spec fn client_id_text(client_type: Seq<char>, counter: u64) -> Seq<char> {
    client_type + seq!['-'] + dec_digits(counter as nat)
}

impl View for ClientId {
    type V = Seq<char>;

    closed spec fn view(&self) -> Seq<char> {
        self.0@
    }
}

impl ClientId {
    /// Builds `{client_type}-{counter}` and checks it as an identifier.
    pub fn new(client_type: &str, counter: u64) -> (r: Result<Self, TypeError>)
        ensures
            match identifier_fault(client_id_text(client_type@, counter), 9, 64) {
                None => r matches Ok(c) && c@ == client_id_text(client_type@, counter),
                Some(f) => r matches Err(e) && fault_matches(e, f, client_id_text(client_type@, counter), 9, 64),
            },
    {
        let mut id = String::from_str(client_type);
        proof { reveal_strlit("-"); }
        id.append("-");
        push_decimal(&mut id, counter);
        assert(id@ =~= client_id_text(client_type@, counter));
        Self::from_str(id.as_str())
    }

    /// Accepts a string that is a valid client identifier.
    pub fn from_str(s: &str) -> (r: Result<Self, TypeError>)
        ensures
            match identifier_fault(s@, 9, 64) {
                None => r matches Ok(c) && c@ == s@,
                Some(f) => r matches Err(e) && fault_matches(e, f, s@, 9, 64),
            },
    {
        validate_client_identifier(s)?;
        Ok(ClientId(s.to_owned()))
    }

    /// This identifier as a borrowed `&str`.
    pub fn as_str(&self) -> (r: &str)
        ensures
            r@ == self@,
    {
        self.0.as_str()
    }

    /// This identifier as UTF-8 bytes.
    pub fn as_bytes(&self) -> (r: &[u8])
        ensures
            r@ == vstd::utf8::encode_utf8(self@),
    {
        self.0.as_str().as_bytes()
    }

    /// Compares this identifier with a string.
    pub fn eq_str(&self, other: &str) -> (r: bool)
        ensures
            r == (self@ == other@),
    {
        str_eq(self.0.as_str(), other)
    }

    /// Checks that this identifier is `{client_type}-{counter}` for the given
    /// client type, with a counter that has no leading zero and fits in 64 bits.
    pub fn validate(&self, client_type: &str) -> (r: Result<(), TypeError>)
        ensures
            match client_id_fault(self@, client_type@) {
                None => r is Ok,
                Some(f) => r matches Err(e) && client_fault_matches(e, f, self@, client_type@),
            },
    {
        let s = self.0.as_str();
        validate_client_identifier(s)?;
        let n = s.unicode_len();
        let mut i: usize = n;
        while i > 0 && s.get_char(i - 1) != '-'
            invariant
                n == s@.len(),
                i <= n,
                forall|j: int| i <= j < n ==> s@[j] != '-',
            decreases i,
        {
            i = i - 1;
        }
        if i == 0 {
            assert(last_dash(s@) is None);
            return Err(TypeError::ClientIdInvalidFormat { id: self.0.clone() });
        }
        let pos = i - 1;
        proof { lemma_last_dash(s@, pos as int); }
        let client_type_ = s.substring_char(0, pos);
        if !str_eq(client_type_, client_type) {
            return Err(TypeError::ClientIdInvalidClientType { id: self.0.clone(), client_type: client_type.to_owned() });
        }
        let counter = s.substring_char(pos + 1, n);
        let m = counter.unicode_len();
        if m > 1 && counter.get_char(0) == '0' {
            return Err(TypeError::ClientIdInvalidCounter { id: self.0.clone() });
        }
        match parse_u64(counter) {
            Some(_) => Ok(()),
            None => Err(TypeError::ClientIdInvalidCounterParseIntError { id: self.0.clone() }),
        }
    }
}

/// A client identifier built by `ClientId::new` passes `validate` for the
/// client type it was built from.
pub proof fn lemma_new_client_id_validates(client_type: Seq<char>, counter: u64)
    requires
        identifier_fault(client_id_text(client_type, counter), 9, 64) is None,
    ensures
        client_id_fault(client_id_text(client_type, counter), client_type) is None,
{
    let s = client_id_text(client_type, counter);
    let d = dec_digits(counter as nat);
    lemma_dec_digits(counter as nat);
    let pos = client_type.len() as int;
    assert(s[pos] == '-');
    assert forall|j: int| pos < j < s.len() implies s[j] != '-' by {
        assert(s[j] == d[j - pos - 1]);
        assert(all_digits(d));
        assert(is_digit(d[j - pos - 1]));
    }
    lemma_last_dash(s, pos);
    assert(s.subrange(0, pos) =~= client_type);
    assert(s.subrange(pos + 1, s.len() as int) =~= d);
    lemma_parse_dec_digits(counter);
}

} // verus!
