//! Fields of fixed width: big-endian, most significant byte first.

use crate::varint::model::{pattern64, value64};
use vstd::prelude::*;

verus! {

/// The `width` low bytes of a pattern, most significant first.
pub open spec fn be_bytes(pattern: nat, width: nat) -> Seq<u8>
    decreases width,
{
    if width == 0 {
        Seq::empty()
    } else {
        be_bytes(pattern / 256, (width - 1) as nat).push((pattern % 256) as u8)
    }
}

/// The number that bytes spell, most significant first.
pub open spec fn be_value(s: Seq<u8>) -> nat
    decreases s.len(),
{
    if s.len() == 0 {
        0
    } else {
        be_value(s.drop_last()) * 256 + s.last() as nat
    }
}

/// The number of patterns that fit in `width` bytes: 256 to the power
/// `width`.
pub open spec fn radix(width: nat) -> nat
    decreases width,
{
    if width == 0 {
        1
    } else {
        256 * radix((width - 1) as nat)
    }
}

/// The bytes of a 16-bit field.
pub open spec fn encode_u16(v: u16) -> Seq<u8> {
    be_bytes(v as nat, 2)
}

/// The bytes of a 64-bit field.
pub open spec fn encode_be_i64(v: i64) -> Seq<u8> {
    be_bytes(pattern64(v), 8)
}

/// `be_bytes` gives as many bytes as asked for.
pub proof fn lemma_be_bytes_len(pattern: nat, width: nat)
    ensures
        be_bytes(pattern, width).len() == width,
    decreases width,
{
    if width > 0 {
        lemma_be_bytes_len(pattern / 256, (width - 1) as nat);
    }
}

/// What bytes spell is below `radix` of their number.
pub proof fn lemma_be_value_bound(s: Seq<u8>)
    ensures
        be_value(s) < radix(s.len()),
    decreases s.len(),
{
    if s.len() > 0 {
        lemma_be_value_bound(s.drop_last());
    }
}

/// Reading the bytes of a pattern that fits gives the pattern back.
pub proof fn lemma_be_round_trip(pattern: nat, width: nat)
    requires
        pattern < radix(width),
    ensures
        be_value(be_bytes(pattern, width)) == pattern,
    decreases width,
{
    if width > 0 {
        let s = be_bytes(pattern, width);
        assert(s.drop_last() =~= be_bytes(pattern / 256, (width - 1) as nat));
        lemma_be_round_trip(pattern / 256, (width - 1) as nat);
    }
}

/// The bytes that spell a number are the bytes of that number.
pub proof fn lemma_be_bytes_of_value(s: Seq<u8>)
    ensures
        be_bytes(be_value(s), s.len()) == s,
    decreases s.len(),
{
    if s.len() > 0 {
        lemma_be_bytes_of_value(s.drop_last());
        assert(be_bytes(be_value(s), s.len()) =~= s);
    }
}

/// Round trip of a 64-bit field.
pub proof fn lemma_be_i64_round_trip(v: i64)
    ensures
        encode_be_i64(v).len() == 8,
        value64(be_value(encode_be_i64(v))) == v,
{
    reveal_with_fuel(radix, 9);
    lemma_be_bytes_len(pattern64(v), 8);
    lemma_be_round_trip(pattern64(v), 8);
}

/// The `width` low bytes of `pattern`, most significant first.
pub fn be_encode(pattern: u64, width: usize) -> (out: Vec<u8>)
    ensures
        out@ == be_bytes(pattern as nat, width as nat),
    decreases width,
{
    if width == 0 {
        Vec::new()
    } else {
        let mut out = be_encode(pattern / 256, width - 1);
        out.push((pattern % 256) as u8);
        out
    }
}

/// The number that at most eight bytes spell, most significant first.
pub fn be_decode(bytes: &[u8]) -> (value: u64)
    requires
        bytes@.len() <= 8,
    ensures
        value == be_value(bytes@),
{
    let mut acc: u64 = 0;
    let mut i: usize = 0;
    while i < bytes.len()
        invariant
            i <= bytes@.len() <= 8,
            acc == be_value(bytes@.take(i as int)),
        decreases bytes@.len() - i,
    {
        proof {
            let next = bytes@.take(i + 1);
            assert(next.drop_last() =~= bytes@.take(i as int));
            lemma_be_value_bound(next);
            reveal_with_fuel(radix, 9);
        }
        acc = acc * 256 + bytes[i] as u64;
        i += 1;
    }
    proof {
        assert(bytes@.take(i as int) =~= bytes@);
    }
    acc
}

} // verus!
