use vstd::prelude::*;
use vstd::string::*;
use core::cmp::Ordering;
use crate::decimal::{dec_digits, lemma_dec_digits, lemma_digit_char, lemma_parse_dec_digits, parse_u64, parse_u64_spec, push_decimal, all_digits, digit_char};
use crate::errors::TypeError;

verus! {

broadcast use vstd::string::group_string_axioms;

/// A block height: a revision ("epoch") number and a height within it.
#[derive(Copy, Clone, Debug, PartialEq, Eq, Structural, Hash, PartialOrd, Ord)]
pub struct Height {
    revision_number: u64,
    revision_height: u64,
}

impl Default for Height {
    fn default() -> (r: Self)
        ensures
            r.rn() == 0 && r.rh() == 0,
    {
        Height { revision_number: 0, revision_height: 0 }
    }
}

/// The wire form of a height.
#[derive(Copy, Clone, Debug, PartialEq, Eq, Structural, Default)]
pub struct RawHeight {
    pub revision_number: u64,
    pub revision_height: u64,
}

/// Heights are ordered by revision number first, then by height.
pub open spec fn height_lt(a: Height, b: Height) -> bool {
    a.rn() < b.rn() || (a.rn() == b.rn() && a.rh() < b.rh())
}

/// The textual form `"{revision_number}-{revision_height}"`.
pub open spec fn height_text(h: Height) -> Seq<char> {
    dec_digits(h.rn() as nat) + seq!['-'] + dec_digits(h.rh() as nat)
}

/// The position of the first `-` in `s`, if any.
pub open spec fn first_dash(s: Seq<char>) -> Option<int> {
    if exists|i: int| 0 <= i < s.len() && s[i] == '-' {
        Some(choose|i: int| 0 <= i < s.len() && s[i] == '-' && forall|j: int| 0 <= j < i ==> s[j] != '-')
    } else {
        None
    }
}

/// The piece of `s` before its first `-`, when `s` has one.
pub open spec fn dash_field_0(s: Seq<char>) -> Seq<char> {
    s.subrange(0, first_dash(s).unwrap())
}

/// The piece of `s` between its first `-` and the next `-` (or the end).
pub open spec fn dash_field_1(s: Seq<char>) -> Seq<char> {
    let rest = s.subrange(first_dash(s).unwrap() + 1, s.len() as int);
    match first_dash(rest) {
        Some(j) => rest.subrange(0, j),
        None => rest,
    }
}

/// What parsing a height from text gives: the first two `-`-separated fields
/// read as unsigned decimal numbers.
pub open spec fn parse_height_spec(s: Seq<char>) -> Option<(u64, u64)> {
    match (parse_u64_spec(dash_field_0(s)), parse_u64_spec(dash_field_1(s))) {
        (Some(a), Some(b)) => Some((a, b)),
        _ => None,
    }
}

pub proof fn lemma_first_dash(s: Seq<char>, i: int)
    requires
        0 <= i < s.len(),
        s[i] == '-',
        forall|j: int| 0 <= j < i ==> s[j] != '-',
    ensures
        first_dash(s) == Some(i),
{
    let c = choose|k: int| 0 <= k < s.len() && s[k] == '-' && forall|j: int| 0 <= j < k ==> s[j] != '-';
    assert(0 <= i < s.len() && s[i] == '-' && forall|j: int| 0 <= j < i ==> s[j] != '-');
    if c < i {
        assert(s[c] != '-');
    }
    if c > i {
        assert(s[i] != '-');
    }
}

pub proof fn lemma_no_dash(s: Seq<char>)
    requires
        forall|j: int| 0 <= j < s.len() ==> s[j] != '-',
    ensures
        first_dash(s) is None,
{
}

impl Height {
    pub closed spec fn rn(self) -> u64 {
        self.revision_number
    }

    pub closed spec fn rh(self) -> u64 {
        self.revision_height
    }


    pub fn new(revision_number: u64, revision_height: u64) -> (r: Self)
        ensures
            r.rn() == revision_number,
            r.rh() == revision_height,
    {
        Self { revision_number, revision_height }
    }

    pub fn zero() -> (r: Self)
        ensures
            r.rn() == 0,
            r.rh() == 0,
    {
        Height::new(0, 0)
    }

    pub fn revision_number(&self) -> (r: u64)
        ensures
            r == self.rn(),
    {
        self.revision_number
    }

    pub fn revision_height(&self) -> (r: u64)
        ensures
            r == self.rh(),
    {
        self.revision_height
    }

    /// Adds `delta` to the height within the same revision; fails on overflow.
    pub fn add(&self, delta: u64) -> (r: Result<Height, TypeError>)
        ensures
            self.rh() + delta <= u64::MAX ==> (r matches Ok(h) && h.rn() == self.rn() && h.rh() == self.rh() + delta),
            self.rh() + delta > u64::MAX ==> r matches Err(TypeError::InvalidHeightResult),
    {
        match self.revision_height.checked_add(delta) {
            Some(h) => Ok(Height { revision_number: self.revision_number, revision_height: h }),
            None => Err(TypeError::InvalidHeightResult),
        }
    }

    /// Subtracts `delta` from the height within the same revision; fails when
    /// the result would be negative.
    pub fn sub(&self, delta: u64) -> (r: Result<Height, TypeError>)
        ensures
            delta <= self.rh() ==> (r matches Ok(h) && h.rn() == self.rn() && h.rh() == self.rh() - delta),
            delta > self.rh() ==> r matches Err(TypeError::InvalidHeightResult),
    {
        match self.revision_height.checked_sub(delta) {
            Some(h) => Ok(Height { revision_number: self.revision_number, revision_height: h }),
            None => Err(TypeError::InvalidHeightResult),
        }
    }

    pub fn is_zero(&self) -> (r: bool)
        ensures
            r == (self.rn() == 0 && self.rh() == 0),
    {
        self.revision_number == 0 && self.revision_height == 0
    }

    /// Three-way comparison: by revision number, then by height.
    pub fn compare(&self, other: &Height) -> (r: Ordering)
        ensures
            (r is Less) == height_lt(*self, *other),
            (r is Equal) == (*self == *other),
            (r is Greater) == height_lt(*other, *self),
    {
        if self.revision_number < other.revision_number {
            Ordering::Less
        } else if self.revision_number > other.revision_number {
            Ordering::Greater
        } else if self.revision_height < other.revision_height {
            Ordering::Less
        } else if self.revision_height > other.revision_height {
            Ordering::Greater
        } else {
            Ordering::Equal
        }
    }

    /// A height from its wire form.
    pub fn from_raw(raw: RawHeight) -> (r: Self)
        ensures
            r.rn() == raw.revision_number,
            r.rh() == raw.revision_height,
    {
        Height::new(raw.revision_number, raw.revision_height)
    }

    /// The wire form of this height.
    pub fn to_raw(&self) -> (r: RawHeight)
        ensures
            r.revision_number == self.rn(),
            r.revision_height == self.rh(),
    {
        RawHeight { revision_number: self.revision_number, revision_height: self.revision_height }
    }

    /// Strict order, as `<` on heights.
    pub fn lt(&self, other: &Height) -> (r: bool)
        ensures
            r == height_lt(*self, *other),
    {
        self.revision_number < other.revision_number
            || (self.revision_number == other.revision_number && self.revision_height < other.revision_height)
    }

    /// The text `"{revision_number}-{revision_height}"`.
    pub fn to_string(&self) -> (s: String)
        ensures
            s@ == height_text(*self),
    {
        let mut s = String::new();
        push_decimal(&mut s, self.revision_number);
        proof { reveal_strlit("-"); }
        s.append("-");
        push_decimal(&mut s, self.revision_height);
        assert(s@ =~= height_text(*self));
        s
    }

    /// Parses `"{revision_number}-{revision_height}"`: the first two
    /// `-`-separated fields are read as decimal numbers and anything after a
    /// second `-` is ignored. Text without a `-` is refused, and must not be
    /// a number as a whole (it would lack its second field).
    pub fn try_from_str(value: &str) -> (r: Result<Height, TypeError>)
        requires
            first_dash(value@) is Some || parse_u64_spec(value@) is None,
        ensures
            first_dash(value@) is Some ==> match parse_height_spec(value@) {
                Some(p) => r matches Ok(h) && h.rn() == p.0 && h.rh() == p.1,
                None => r matches Err(TypeError::HeightConversion { height }) && height@ == value@,
            },
            first_dash(value@) is None ==> (r matches Err(TypeError::HeightConversion { height }) && height@ == value@),
    {
        let n = value.unicode_len();
        let mut i: usize = 0;
        while i < n && value.get_char(i) != '-'
            invariant
                n == value@.len(),
                i <= n,
                forall|j: int| 0 <= j < i ==> value@[j] != '-',
            decreases n - i,
        {
            i = i + 1;
        }
        if i >= n {
            proof { lemma_no_dash(value@); }
            return Err(TypeError::HeightConversion { height: value.to_owned() });
        }
        proof { lemma_first_dash(value@, i as int); }
        let field0 = value.substring_char(0, i);
        let rest = value.substring_char(i + 1, n);
        let m = rest.unicode_len();
        let mut j: usize = 0;
        while j < m && rest.get_char(j) != '-'
            invariant
                m == rest@.len(),
                j <= m,
                forall|k: int| 0 <= k < j ==> rest@[k] != '-',
            decreases m - j,
        {
            j = j + 1;
        }
        proof {
            if j < m {
                lemma_first_dash(rest@, j as int);
            } else {
                lemma_no_dash(rest@);
            }
        }
        let field1 = rest.substring_char(0, j);
        assert(field1@ == dash_field_1(value@)) by {
            if j >= m {
                assert(rest@.subrange(0, j as int) =~= rest@);
            }
        }
        match (parse_u64(field0), parse_u64(field1)) {
            (Some(a), Some(b)) => Ok(Height::new(a, b)),
            _ => Err(TypeError::HeightConversion { height: value.to_owned() }),
        }
    }
}

/// Decimal text holds no `-`.
proof fn lemma_dec_no_dash(n: nat)
    ensures
        forall|j: int| 0 <= j < dec_digits(n).len() ==> dec_digits(n)[j] != '-',
{
    lemma_dec_digits(n);
    assert forall|j: int| 0 <= j < dec_digits(n).len() implies dec_digits(n)[j] != '-' by {
        assert(all_digits(dec_digits(n)));
        assert(crate::decimal::is_digit(dec_digits(n)[j]));
    }
}

/// Reading back the text of a height gives the same height.
pub proof fn lemma_height_text_roundtrip(h: Height)
    ensures
        first_dash(height_text(h)) is Some,
        parse_height_spec(height_text(h)) == Some((h.rn(), h.rh())),
{
    let a = dec_digits(h.rn() as nat);
    let b = dec_digits(h.rh() as nat);
    let s = height_text(h);
    lemma_dec_no_dash(h.rn() as nat);
    lemma_dec_no_dash(h.rh() as nat);
    lemma_dec_digits(h.rn() as nat);
    let i = a.len() as int;
    assert(s[i] == '-');
    assert forall|j: int| 0 <= j < i implies s[j] != '-' by {
        assert(s[j] == a[j]);
    }
    lemma_first_dash(s, i);
    assert(dash_field_0(s) =~= a);
    let rest = s.subrange(i + 1, s.len() as int);
    assert(rest =~= b);
    lemma_no_dash(rest);
    assert(dash_field_1(s) =~= b);
    lemma_parse_dec_digits(h.rn());
    lemma_parse_dec_digits(h.rh());
}

/// Two heights are equal exactly when both components are.
pub proof fn lemma_height_eq(a: Height, b: Height)
    ensures
        (a == b) <==> (a.rn() == b.rn() && a.rh() == b.rh()),
{
}

/// The order on heights is a strict total order.
pub proof fn lemma_height_order(a: Height, b: Height, c: Height)
    ensures
        !height_lt(a, a),
        height_lt(a, b) ==> !height_lt(b, a),
        height_lt(a, b) && height_lt(b, c) ==> height_lt(a, c),
        height_lt(a, b) || height_lt(b, a) || a == b,
{
}

} // verus!
