use vstd::prelude::*;
use vstd::string::*;
use crate::decimal::{dec_digits, push_decimal};
use crate::height::Height;

verus! {

broadcast use vstd::string::group_string_axioms;

/// The debug text of a height: `Height { revision: R, height: H }`.
pub open spec fn height_debug(h: Height) -> Seq<char> {
    "Height { revision: "@ + dec_digits(h.rn() as nat) + ", height: "@ + dec_digits(h.rh() as nat) + " }"@
}

/// The debug text of an optional height.
pub open spec fn opt_height_debug(o: Option<Height>) -> Seq<char> {
    match o {
        Some(h) => "Some("@ + height_debug(h) + ")"@,
        None => "None"@,
    }
}

/// The debug text of a list of bytes: `[1, 2, 3]`.
pub open spec fn byte_items(s: Seq<u8>) -> Seq<char>
    decreases s.len(),
{
    if s.len() == 0 {
        Seq::empty()
    } else if s.len() == 1 {
        dec_digits(s[0] as nat)
    } else {
        byte_items(s.drop_last()) + ", "@ + dec_digits(s.last() as nat)
    }
}

pub open spec fn bytes_debug(s: Seq<u8>) -> Seq<char> {
    "["@ + byte_items(s) + "]"@
}

/// The debug text of optional bytes.
pub open spec fn opt_bytes_debug(o: Option<Seq<u8>>) -> Seq<char> {
    match o {
        Some(b) => "Some("@ + bytes_debug(b) + ")"@,
        None => "None"@,
    }
}

/// Appends the debug text of a height.
pub fn push_height_debug(out: &mut String, h: &Height)
    ensures
        final(out)@ == old(out)@ + height_debug(*h),
{
    out.append("Height { revision: ");
    push_decimal(out, h.revision_number());
    out.append(", height: ");
    push_decimal(out, h.revision_height());
    out.append(" }");
    assert(out@ =~= old(out)@ + height_debug(*h));
}

/// Appends the debug text of an optional height.
pub fn push_opt_height_debug(out: &mut String, o: &Option<Height>)
    ensures
        final(out)@ == old(out)@ + opt_height_debug(*o),
{
    match o {
        Some(h) => {
            out.append("Some(");
            push_height_debug(out, h);
            out.append(")");
            assert(out@ =~= old(out)@ + opt_height_debug(*o));
        },
        None => {
            out.append("None");
        },
    }
}

/// Appends the debug text of a byte list.
pub fn push_bytes_debug(out: &mut String, b: &[u8])
    ensures
        final(out)@ == old(out)@ + bytes_debug(b@),
{
    out.append("[");
    let ghost start = out@;
    let mut i: usize = 0;
    while i < b.len()
        invariant
            i <= b@.len(),
            out@ == start + byte_items(b@.subrange(0, i as int)),
        decreases b@.len() - i,
    {
        let ghost before = out@;
        let ghost pre = b@.subrange(0, i as int);
        let ghost next = b@.subrange(0, i + 1);
        assert(next.drop_last() =~= pre);
        if i > 0 {
            out.append(", ");
        }
        push_decimal(out, b[i] as u64);
        proof {
            if i == 0 {
                assert(byte_items(pre) =~= Seq::<char>::empty());
            }
            assert(out@ =~= start + byte_items(next));
        }
        i = i + 1;
    }
    assert(b@.subrange(0, b@.len() as int) =~= b@);
    out.append("]");
    assert(out@ =~= old(out)@ + bytes_debug(b@));
}

/// Appends the debug text of optional bytes.
pub fn push_opt_bytes_debug(out: &mut String, o: &Option<Vec<u8>>)
    ensures
        final(out)@ == old(out)@ + opt_bytes_debug(crate::speculative::types::opt_vec_view(*o)),
{
    match o {
        Some(v) => {
            out.append("Some(");
            push_bytes_debug(out, v.as_slice());
            out.append(")");
            assert(out@ =~= old(out)@ + opt_bytes_debug(crate::speculative::types::opt_vec_view(*o)));
        },
        None => {
            out.append("None");
        },
    }
}

} // verus!
