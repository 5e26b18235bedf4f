use vstd::prelude::*;
use vstd::string::*;
use crate::digest::{hex_bytes, hex_char_value, hex_digit, hex_encode, hex_lower, is_hex_char};
use crate::errors::TypeError;

verus! {

broadcast use vstd::string::group_string_axioms;

/// The size of an enclave measurement.
pub const SGX_HASH_SIZE: usize = 32;
/// The size of one entry of the enclave layout table.
pub const LAYOUT_ENTRY_SIZE: usize = 32;
/// The flag that marks a layout entry as a group of earlier entries.
pub const GROUP_FLAG: u32 = 0x1000;
/// The layout identifier of a dynamically added TCS.
pub const LAYOUT_ID_TCS_DYN: u32 = 14;
/// The page attribute: added at load time.
pub const PAGE_ATTR_EADD: u16 = 1;
/// The page attribute: added after load time.
pub const PAGE_ATTR_POST_ADD: u16 = 8;
/// The security-information flags of a TCS page.
pub const SI_FLAGS_TCS: u64 = 0x100;
/// The TCS policy under which a TCS is bound to its thread.
pub const TCS_POLICY_BIND: u32 = 0;
/// The TCS policy under which a TCS is not bound to a thread.
pub const TCS_POLICY_UNBIND: u32 = 1;

/// `hex::FromHexError`, the error of a hexadecimal decoding.
#[verifier::external_type_specification]
#[verifier::external_body]
pub struct ExFromHexError(hex::FromHexError);

/// `hex::decode_to_slice` into 32 bytes: it succeeds exactly on 64
/// hexadecimal digits of either case, and each byte is a pair of them, high
/// nibble first.
#[verifier::external_body]
fn hex_decode_32(data: &str) -> (r: Result<[u8; 32], hex::FromHexError>)
    ensures
        r is Ok <==> (data@.len() == 64 && forall|i: int| 0 <= i < 64 ==> is_hex_char(#[trigger] data@[i])),
        r matches Ok(b) ==> b@ == hex_bytes(data@),
{
    let mut out = [0u8; 32];
    match hex::decode_to_slice(data, &mut out) {
        Ok(()) => Ok(out),
        Err(e) => Err(e),
    }
}

/// The measurement (MRENCLAVE) of an enclave.
#[derive(Debug, Clone, Copy, PartialEq, Eq)]
pub struct Mrenclave(pub [u8; 32]);

/// A string without its leading `0x`, if it has one.
pub open spec fn strip_0x(s: Seq<char>) -> Seq<char> {
    if s.len() >= 2 && s[0] == '0' && s[1] == 'x' {
        s.subrange(2, s.len() as int)
    } else {
        s
    }
}

/// 64 hexadecimal digits of either case.
pub open spec fn is_hash_hex(s: Seq<char>) -> bool {
    s.len() == 64 && forall|i: int| 0 <= i < 64 ==> is_hex_char(#[trigger] s[i])
}

impl Mrenclave {
    /// The measurement with these bytes.
    pub fn new(bytes: [u8; 32]) -> (r: Self)
        ensures
            r.0 == bytes,
    {
        Mrenclave(bytes)
    }

    /// The measurement held in a byte vector, which must be 32 bytes long.
    pub fn try_from_vec(value: Vec<u8>) -> (r: Result<Self, TypeError>)
        ensures
            r is Ok <==> value@.len() == SGX_HASH_SIZE,
            r matches Ok(m) ==> m.0@ == value@,
            r matches Err(e) ==> (e matches TypeError::MrenclaveBytesConversion { bz } && bz@ == value@),
    {
        if value.len() != SGX_HASH_SIZE {
            return Err(TypeError::MrenclaveBytesConversion { bz: value });
        }
        let mut bytes = [0u8; 32];
        let mut i: usize = 0;
        while i < 32
            invariant
                i <= 32,
                value@.len() == 32,
                forall|j: int| 0 <= j < i ==> bytes@[j] == value@[j],
            decreases 32 - i,
        {
            bytes.set(i, value[i]);
            i = i + 1;
        }
        assert(bytes@ =~= value@);
        Ok(Mrenclave(bytes))
    }

    /// `0x` followed by the measurement in lowercase hexadecimal.
    pub fn to_hex_string(&self) -> (r: String)
        ensures
            r@ == "0x"@ + hex_lower(self.0@),
    {
        let mut s = String::from_str("0x");
        let h = hex_encode(vstd::array::array_as_slice(&self.0));
        s.append(h.as_str());
        s
    }

    /// Reads a measurement from 64 hexadecimal digits, with or without a
    /// leading `0x`.
    pub fn from_hex_string(s: &str) -> (r: Result<Self, TypeError>)
        ensures
            r is Ok <==> is_hash_hex(strip_0x(s@)),
            r matches Ok(m) ==> m.0@ == hex_bytes(strip_0x(s@)),
            r matches Err(e) ==> e is HexParseError,
    {
        let n = s.unicode_len();
        let body = if n >= 2 && s.get_char(0) == '0' && s.get_char(1) == 'x' {
            s.substring_char(2, n)
        } else {
            s
        };
        match hex_decode_32(body) {
            Ok(bytes) => Ok(Mrenclave(bytes)),
            Err(_) => Err(TypeError::HexParseError),
        }
    }
}

proof fn lemma_hex_lower_shape(b: Seq<u8>)
    ensures
        hex_lower(b).len() == 2 * b.len(),
        forall|i: int| 0 <= i < b.len() ==> #[trigger] hex_lower(b)[2 * i] == hex_digit(b[i] as int / 16)
            && hex_lower(b)[2 * i + 1] == hex_digit(b[i] as int % 16),
    decreases b.len(),
{
    if b.len() > 0 {
        let p = b.drop_last();
        lemma_hex_lower_shape(p);
        assert forall|i: int| 0 <= i < b.len() implies #[trigger] hex_lower(b)[2 * i] == hex_digit(b[i] as int / 16)
            && hex_lower(b)[2 * i + 1] == hex_digit(b[i] as int % 16) by {
            if i < p.len() {
                assert(b[i] == p[i]);
                assert(hex_lower(p)[2 * i] == hex_digit(p[i] as int / 16));
            }
        }
    }
}

proof fn lemma_hex_digit(d: int)
    requires
        0 <= d < 16,
    ensures
        is_hex_char(hex_digit(d)),
        hex_char_value(hex_digit(d)) == d,
{
}

/// Printing a measurement in hexadecimal and reading it back gives the same
/// measurement.
pub proof fn lemma_mrenclave_hex_roundtrip(m: Mrenclave)
    ensures
        is_hash_hex(strip_0x("0x"@ + hex_lower(m.0@))),
        hex_bytes(strip_0x("0x"@ + hex_lower(m.0@))) == m.0@,
{
    let b = m.0@;
    let h = hex_lower(b);
    lemma_hex_lower_shape(b);
    let s = "0x"@ + h;
    reveal_strlit("0x");
    assert(s[0] == '0' && s[1] == 'x');
    assert(strip_0x(s) =~= h);
    assert forall|i: int| 0 <= i < 64 implies is_hex_char(#[trigger] h[i]) by {
        let k = i / 2;
        assert(h[2 * k] == hex_digit(b[k] as int / 16));
        if i % 2 == 0 {
            assert(i == 2 * k);
            lemma_hex_digit(b[k] as int / 16);
        } else {
            assert(i == 2 * k + 1);
            lemma_hex_digit(b[k] as int % 16);
        }
    }
    assert forall|k: int| 0 <= k < 32 implies #[trigger] hex_bytes(h)[k] == b[k] by {
        lemma_hex_digit(b[k] as int / 16);
        lemma_hex_digit(b[k] as int % 16);
        assert(h[2 * k] == hex_digit(b[k] as int / 16));
    }
    assert(hex_bytes(h) =~= b);
}

/// The little-endian 16-bit number at `off`, when two bytes are there.
pub open spec fn le_u16(s: Seq<u8>, off: int) -> Option<u16> {
    if 0 <= off && off + 2 <= s.len() {
        Some((s[off] + 256 * s[off + 1]) as u16)
    } else {
        None
    }
}

/// The little-endian 32-bit number at `off`, when four bytes are there.
pub open spec fn le_u32(s: Seq<u8>, off: int) -> Option<u32> {
    if 0 <= off && off + 4 <= s.len() {
        Some((s[off] + 0x100 * s[off + 1] + 0x1_0000 * s[off + 2] + 0x100_0000 * s[off + 3]) as u32)
    } else {
        None
    }
}

/// The little-endian 64-bit number at `off`, when eight bytes are there.
pub open spec fn le_u64(s: Seq<u8>, off: int) -> Option<u64> {
    if 0 <= off && off + 8 <= s.len() {
        Some((s[off] + 0x100 * s[off + 1] + 0x1_0000 * s[off + 2] + 0x100_0000 * s[off + 3]
            + 0x1_0000_0000 * s[off + 4] + 0x100_0000_0000 * s[off + 5] + 0x1_0000_0000_0000 * s[off + 6]
            + 0x100_0000_0000_0000 * s[off + 7]) as u64)
    } else {
        None
    }
}

/// Reads a little-endian `u16` at `offset`; `None` past the end.
pub fn read_u16(input: &[u8], offset: usize) -> (r: Option<u16>)
    ensures
        r == le_u16(input@, offset as int),
{
    if offset > input.len() || input.len() - offset < 2 {
        return None;
    }
    Some(input[offset] as u16 + 256 * (input[offset + 1] as u16))
}

/// Reads a little-endian `u32` at `offset`; `None` past the end.
pub fn read_u32(input: &[u8], offset: usize) -> (r: Option<u32>)
    ensures
        r == le_u32(input@, offset as int),
{
    if offset > input.len() || input.len() - offset < 4 {
        return None;
    }
    Some(input[offset] as u32 + 0x100 * (input[offset + 1] as u32) + 0x1_0000 * (input[offset + 2] as u32)
        + 0x100_0000 * (input[offset + 3] as u32))
}

/// Reads a little-endian `u64` at `offset`; `None` past the end.
pub fn read_u64(input: &[u8], offset: usize) -> (r: Option<u64>)
    ensures
        r == le_u64(input@, offset as int),
{
    if offset > input.len() || input.len() - offset < 8 {
        return None;
    }
    Some(input[offset] as u64 + 0x100 * (input[offset + 1] as u64) + 0x1_0000 * (input[offset + 2] as u64)
        + 0x100_0000 * (input[offset + 3] as u64) + 0x1_0000_0000 * (input[offset + 4] as u64)
        + 0x100_0000_0000 * (input[offset + 5] as u64) + 0x1_0000_0000_0000 * (input[offset + 6] as u64)
        + 0x100_0000_0000_0000 * (input[offset + 7] as u64))
}

/// A count held at `usize::MAX` when it would exceed it.
pub open spec fn sat(n: int) -> nat {
    if n > usize::MAX {
        usize::MAX as nat
    } else if n < 0 {
        0
    } else {
        n as nat
    }
}

/// The TCS pages that the layout entries `start..i` declare, as the SGX
/// runtime counts them, and whether the scan stopped at an unreadable entry.
/// A group entry repeats the entries just before it, as many times as it
/// says; counts saturate.
pub open spec fn tcs_scan(layout: Seq<u8>, start: int, i: int) -> (nat, bool)
    decreases i - start, 1int,
{
    if i <= start {
        (0, false)
    } else {
        let prev = tcs_scan(layout, start, i - 1);
        if prev.1 {
            prev
        } else {
            match tcs_entry(layout, start, i - 1) {
                None => (prev.0, true),
                Some(c) => (sat(prev.0 as int + c as int), false),
            }
        }
    }
}

/// The TCS pages of the non-group entry at `off` with identifier `id`.
pub open spec fn tcs_page_count(layout: Seq<u8>, off: int, id: u16) -> nat {
    match le_u16(layout, off + 2) {
        None => 0,
        Some(attributes) => {
            let post = if (attributes & PAGE_ATTR_POST_ADD) != 0 && (id as u32) == LAYOUT_ID_TCS_DYN {
                1nat
            } else {
                0nat
            };
            if (attributes & PAGE_ATTR_EADD) != 0 {
                match le_u32(layout, off + 20) {
                    None => 0,
                    Some(content_offset) => match le_u64(layout, off + 24) {
                        None => 0,
                        Some(si_flags) => if content_offset != 0 && si_flags == SI_FLAGS_TCS {
                            1
                        } else {
                            post
                        },
                    },
                }
            } else {
                post
            }
        },
    }
}

/// The TCS pages that the entry at `index` adds; `None` when its
/// identifier cannot be read, which ends the scan.
pub open spec fn tcs_entry(layout: Seq<u8>, start: int, index: int) -> Option<nat>
    decreases index - start + 1, 0int,
{
    let off = index * 32;
    match le_u16(layout, off) {
        None => None,
        Some(id) => Some(
            if ((id as u32) & GROUP_FLAG) != 0 {
                match le_u16(layout, off + 2) {
                    None => 0,
                    Some(entry_count) => match le_u32(layout, off + 4) {
                        None => 0,
                        Some(load_times) => if entry_count != 0 && entry_count <= index - start {
                            sat(tcs_scan(layout, index - entry_count, index).0 as int * load_times as int)
                        } else {
                            0
                        },
                    },
                }
            } else {
                tcs_page_count(layout, off, id)
            },
        ),
    }
}

/// A group entry adds its load count times the TCS pages of exactly the
/// entries that it groups, the `c` entries just before it; where the scan
/// of the table began plays no part, as long as those entries lie in it.
pub proof fn lemma_group_entry_repeats_preceding(
    layout: Seq<u8>,
    start: int,
    index: int,
    id: u16,
    c: u16,
    load_times: u32,
)
    requires
        le_u16(layout, index * 32) == Some(id),
        ((id as u32) & GROUP_FLAG) != 0,
        le_u16(layout, index * 32 + 2) == Some(c),
        le_u32(layout, index * 32 + 4) == Some(load_times),
        0 < c <= index - start,
    ensures
        tcs_entry(layout, start, index) == Some(sat(tcs_scan(layout, index - c, index).0 as int * load_times as int)),
        forall|other: int| other <= index - c ==> #[trigger] tcs_entry(layout, other, index) == tcs_entry(layout, start, index),
{
}

/// Two TCS entries followed by a group of the one entry before it, loaded
/// `k` times, declare `2 + k` TCS pages (held at `usize::MAX`): the group
/// repeats only the entry it groups.
pub proof fn lemma_two_tcs_and_group_of_one(layout: Seq<u8>, id0: u16, id1: u16, gid: u16, k: u32)
    requires
        le_u16(layout, 0) == Some(id0),
        ((id0 as u32) & GROUP_FLAG) == 0,
        tcs_page_count(layout, 0, id0) == 1,
        le_u16(layout, 32) == Some(id1),
        ((id1 as u32) & GROUP_FLAG) == 0,
        tcs_page_count(layout, 32, id1) == 1,
        le_u16(layout, 64) == Some(gid),
        ((gid as u32) & GROUP_FLAG) != 0,
        le_u16(layout, 66) == Some(1u16),
        le_u32(layout, 68) == Some(k),
    ensures
        tcs_scan(layout, 0, 3).0 == sat(2 + k as int),
{
    assert(tcs_entry(layout, 0, 0) == Some(1nat));
    assert(tcs_entry(layout, 0, 1) == Some(1nat));
    assert(tcs_entry(layout, 1, 1) == Some(1nat));
    assert(tcs_scan(layout, 1, 1) == (0nat, false));
    assert(tcs_scan(layout, 1, 2) == (1nat, false));
    let one = tcs_scan(layout, 1, 2).0;
    assert(one as int * k as int == k as int) by (nonlinear_arith)
        requires
            one == 1,
    ;
    assert(tcs_entry(layout, 0, 2) == Some(sat(k as int)));
    assert(tcs_scan(layout, 0, 0) == (0nat, false));
    assert(tcs_scan(layout, 0, 1) == (1nat, false));
    assert(tcs_scan(layout, 0, 2) == (2nat, false));
}

proof fn lemma_tcs_scan_bounded(layout: Seq<u8>, start: int, i: int)
    ensures
        tcs_scan(layout, start, i).0 <= usize::MAX,
    decreases i - start,
{
    if i > start {
        lemma_tcs_scan_bounded(layout, start, i - 1);
    }
}

proof fn lemma_tcs_scan_stopped(layout: Seq<u8>, start: int, i: int, j: int)
    requires
        start <= i <= j,
        tcs_scan(layout, start, i).1,
    ensures
        tcs_scan(layout, start, j) == tcs_scan(layout, start, i),
    decreases j - i,
{
    if j > i {
        lemma_tcs_scan_stopped(layout, start, i, j - 1);
    }
}

fn sat_mul(a: usize, b: usize) -> (r: usize)
    ensures
        r == sat(a as int * b as int),
{
    match a.checked_mul(b) {
        Some(v) => v,
        None => usize::MAX,
    }
}

fn tcs_page_count_at(layout: &[u8], offset: usize, id: u16) -> (r: usize)
    requires
        offset + 32 <= usize::MAX,
    ensures
        r == tcs_page_count(layout@, offset as int, id),
{
    let attributes = match read_u16(layout, offset + 2) {
        Some(a) => a,
        None => return 0,
    };
    if (attributes & PAGE_ATTR_EADD) != 0 {
        let content_offset = match read_u32(layout, offset + 20) {
            Some(c) => c,
            None => return 0,
        };
        let si_flags = match read_u64(layout, offset + 24) {
            Some(f) => f,
            None => return 0,
        };
        if content_offset != 0 && si_flags == SI_FLAGS_TCS {
            return 1;
        }
    }
    if (attributes & PAGE_ATTR_POST_ADD) != 0 && (id as u32) == LAYOUT_ID_TCS_DYN {
        1
    } else {
        0
    }
}

fn tcs_entry_at(layout: &[u8], start: usize, index: usize) -> (r: Option<usize>)
    requires
        start <= index,
        (index + 1) * 32 <= usize::MAX,
    ensures
        match tcs_entry(layout@, start as int, index as int) {
            None => r is None,
            Some(c) => r == Some(c as usize) && c <= usize::MAX,
        },
    decreases index - start + 1, 0int,
{
    let offset = index * LAYOUT_ENTRY_SIZE;
    let id = match read_u16(layout, offset) {
        Some(id) => id,
        None => return None,
    };
    if ((id as u32) & GROUP_FLAG) != 0 {
        let entry_count = match read_u16(layout, offset + 2) {
            Some(c) => c as usize,
            None => return Some(0),
        };
        let load_times = match read_u32(layout, offset + 4) {
            Some(t) => t as usize,
            None => return Some(0),
        };
        if entry_count == 0 || entry_count > index - start {
            return Some(0);
        }
        let group_count = count_tcs_entries(layout, index - entry_count, index);
        return Some(sat_mul(group_count, load_times));
    }
    Some(tcs_page_count_at(layout, offset, id))
}

/// Counts the TCS pages that the layout entries `start..end` declare, as the
/// SGX runtime does (see `tcs_scan`).
pub fn count_tcs_entries(layout: &[u8], start: usize, end: usize) -> (r: usize)
    requires
        start <= end,
        end * 32 <= usize::MAX,
    ensures
        r == tcs_scan(layout@, start as int, end as int).0,
    decreases end - start, 1int,
{
    let mut count: usize = 0;
    let mut index = start;
    while index < end
        invariant
            start <= index <= end,
            end * 32 <= usize::MAX,
            count == tcs_scan(layout@, start as int, index as int).0,
            !tcs_scan(layout@, start as int, index as int).1,
        decreases end - index,
    {
        proof {
            lemma_tcs_scan_bounded(layout@, start as int, index as int);
        }
        match tcs_entry_at(layout, start, index) {
            None => {
                proof {
                    lemma_tcs_scan_stopped(layout@, start as int, index + 1, end as int);
                }
                return count;
            },
            Some(c) => {
                count = count.saturating_add(c);
            },
        }
        index = index + 1;
    }
    count
}

/// What the enclave's signed metadata says, as read from its in-memory
/// form: the raw bytes, where the layout table lies in them, the TCS
/// policy, and the enclave's measurement.
pub struct EnclaveMetadata {
    pub bytes: Vec<u8>,
    pub layout_offset: u32,
    pub layout_size: u32,
    pub tcs_policy: u32,
    pub enclave_hash: [u8; 32],
}

/// The number of TCS pages the metadata's layout table declares, when the
/// table lies within the metadata, holds at least one entry, and declares
/// at least one TCS.
pub open spec fn tcs_num_spec(bytes: Seq<u8>, offset: int, size: int) -> Option<nat> {
    if size == 0 || offset + size > bytes.len() {
        None
    } else {
        let layout = bytes.subrange(offset, offset + size);
        let n = layout.len() / 32;
        if n == 0 {
            None
        } else {
            let c = tcs_scan(layout, 0, n as int).0;
            if c > 0 {
                Some(c)
            } else {
                None
            }
        }
    }
}

impl EnclaveMetadata {
    /// The measurement of the enclave.
    pub fn mrenclave(&self) -> (r: Mrenclave)
        ensures
            r.0 == self.enclave_hash,
    {
        Mrenclave(self.enclave_hash)
    }

    pub fn tcs_policy(&self) -> (r: u32)
        ensures
            r == self.tcs_policy,
    {
        self.tcs_policy
    }

    /// The metadata declares `TCSPolicy=BIND`.
    pub fn tcs_policy_is_bind(&self) -> (r: bool)
        ensures
            r == (self.tcs_policy == TCS_POLICY_BIND),
    {
        self.tcs_policy() == TCS_POLICY_BIND
    }

    /// The metadata declares `TCSPolicy=UNBIND`.
    pub fn tcs_policy_is_unbind(&self) -> (r: bool)
        ensures
            r == (self.tcs_policy == TCS_POLICY_UNBIND),
    {
        self.tcs_policy() == TCS_POLICY_UNBIND
    }

    /// The configured TCS count, derived from the layout table the way the
    /// SGX runtime counts TCS entries.
    pub fn tcs_num(&self) -> (r: Option<usize>)
        ensures
            match tcs_num_spec(self.bytes@, self.layout_offset as int, self.layout_size as int) {
                None => r is None,
                Some(c) => r == Some(c as usize),
            },
    {
        let offset = self.layout_offset as usize;
        let size = self.layout_size as usize;
        let len = self.bytes.len();
        let end = match offset.checked_add(size) {
            Some(e) => e,
            None => return None,
        };
        if size == 0 || end > self.bytes.len() {
            return None;
        }
        let layout = vstd::slice::slice_subrange(self.bytes.as_slice(), offset, end);
        let entry_count = layout.len() / LAYOUT_ENTRY_SIZE;
        if entry_count == 0 {
            return None;
        }
        let count = count_tcs_entries(layout, 0, entry_count);
        proof {
            lemma_tcs_scan_bounded(layout@, 0, entry_count as int);
        }
        if count > 0 {
            Some(count)
        } else {
            None
        }
    }
}

} // verus!
