//! The mathematics of the variable-length integer format.
//!
//! An integer travels as its unsigned bit pattern, cut into groups of seven
//! bits, least significant group first. Every byte but the last has its high
//! bit set. This module says so over `nat` and `Seq<u8>` and proves what the
//! codecs rely on: the encoding is short, reading it back gives the value, and
//! a reader that has seen only part of it knows that it must wait.

use vstd::prelude::*;
use vstd::utf8::{
    decode_utf8, encode_utf8, encode_utf8_decode_utf8, encode_utf8_valid_utf8, valid_utf8,
};

verus! {

/// The most bytes that a 32-bit value takes.
pub const MAX_VARINT_LENGTH: usize = 5;

/// The most bytes that a 64-bit value takes.
pub const MAX_VARLONG_LENGTH: usize = 10;

/// The seven payload bits of a byte.
pub const SEGMENT_BITS: u8 = 0x7F;

/// The bit that says another byte follows.
pub const CONTINUE_BIT: u8 = 0x80;

/// The canonical bytes of an unsigned pattern.
pub open spec fn groups(pattern: nat) -> Seq<u8>
    decreases pattern,
{
    if pattern < 128 {
        seq![pattern as u8]
    } else {
        seq![(128 + pattern % 128) as u8] + groups(pattern / 128)
    }
}

/// What a reader finds at the front of a byte sequence.
pub enum Parsed<T> {
    /// A whole item: its value and the number of bytes it took.
    Complete { value: T, len: nat },
    /// The bytes ran out before the item ended. More bytes may complete it.
    Incomplete,
    /// No item starts with these bytes, whatever follows them.
    Invalid,
}

/// Reads one integer of at most `max_len` bytes from the front of `s`.
pub open spec fn scan(s: Seq<u8>, max_len: nat) -> Parsed<nat>
    decreases max_len,
{
    if max_len == 0 {
        Parsed::Invalid
    } else if s.len() == 0 {
        Parsed::Incomplete
    } else if s[0] < 128 {
        Parsed::Complete { value: s[0] as nat, len: 1 }
    } else {
        match scan(s.skip(1), (max_len - 1) as nat) {
            Parsed::Complete { value, len } => Parsed::Complete {
                value: (s[0] - 128) as nat + 128 * value,
                len: len + 1,
            },
            other => other,
        }
    }
}

/// The number of patterns that fit in `k` groups: 128 to the power `k`.
pub open spec fn capacity(k: nat) -> nat
    decreases k,
{
    if k == 0 {
        1
    } else {
        128 * capacity((k - 1) as nat)
    }
}

/// The unsigned pattern of a 32-bit value (two's complement).
pub open spec fn pattern32(v: i32) -> nat {
    if v >= 0 {
        v as nat
    } else {
        (v + 0x1_0000_0000) as nat
    }
}

/// The 32-bit value whose pattern is the low 32 bits of `pattern`.
pub open spec fn value32(pattern: nat) -> i32 {
    let low = pattern % 0x1_0000_0000;
    if low < 0x8000_0000 {
        low as i32
    } else {
        (low - 0x1_0000_0000) as i32
    }
}

/// The unsigned pattern of a 64-bit value (two's complement).
pub open spec fn pattern64(v: i64) -> nat {
    if v >= 0 {
        v as nat
    } else {
        (v + 0x1_0000_0000_0000_0000) as nat
    }
}

/// The 64-bit value whose pattern is the low 64 bits of `pattern`.
pub open spec fn value64(pattern: nat) -> i64 {
    let low = pattern % 0x1_0000_0000_0000_0000;
    if low < 0x8000_0000_0000_0000 {
        low as i64
    } else {
        (low - 0x1_0000_0000_0000_0000) as i64
    }
}

/// The bytes of a 32-bit value on the wire.
pub open spec fn encode_i32(v: i32) -> Seq<u8> {
    groups(pattern32(v))
}

/// The bytes of a 64-bit value on the wire.
pub open spec fn encode_i64(v: i64) -> Seq<u8> {
    groups(pattern64(v))
}

/// Reading a 32-bit value from the front of `s`.
pub open spec fn decode_i32(s: Seq<u8>) -> Parsed<nat> {
    scan(s, MAX_VARINT_LENGTH as nat)
}

/// Reading a 64-bit value from the front of `s`.
pub open spec fn decode_i64(s: Seq<u8>) -> Parsed<nat> {
    scan(s, MAX_VARLONG_LENGTH as nat)
}

/// The bytes of a run of 32-bit values, one encoding after the other.
pub open spec fn encode_batch(values: Seq<i32>) -> Seq<u8>
    decreases values.len(),
{
    if values.len() == 0 {
        Seq::empty()
    } else {
        encode_batch(values.drop_last()) + encode_i32(values.last())
    }
}

/// Whether a text is short enough for the 32-bit length field in front of it.
pub open spec fn string_fits(text: Seq<char>) -> bool {
    encode_utf8(text).len() <= i32::MAX
}

/// The bytes of a text on the wire: the length of its UTF-8 form, then that
/// form. Only a text that fits has such bytes.
pub open spec fn encode_string(text: Seq<char>) -> Seq<u8> {
    encode_i32(encode_utf8(text).len() as i32) + encode_utf8(text)
}

/// Reading a length-prefixed item from the front of `s`: the declared length,
/// then that many bytes. A negative length starts no item.
pub open spec fn decode_block(s: Seq<u8>) -> Parsed<Seq<u8>> {
    match decode_i32(s) {
        Parsed::Complete { value, len } => {
            let declared = value32(value);
            if declared < 0 {
                Parsed::Invalid
            } else if s.len() - len < declared {
                Parsed::Incomplete
            } else {
                Parsed::Complete {
                    value: s.subrange(len as int, len + declared),
                    len: len + declared as nat,
                }
            }
        },
        Parsed::Incomplete => Parsed::Incomplete,
        Parsed::Invalid => Parsed::Invalid,
    }
}

/// Reading a text from the front of `s`: a block that holds valid UTF-8.
pub open spec fn decode_string(s: Seq<u8>) -> Parsed<Seq<char>> {
    match decode_block(s) {
        Parsed::Complete { value, len } => {
            if valid_utf8(value) {
                Parsed::Complete { value: decode_utf8(value), len }
            } else {
                Parsed::Invalid
            }
        },
        Parsed::Incomplete => Parsed::Incomplete,
        Parsed::Invalid => Parsed::Invalid,
    }
}

/// A pattern below `capacity(k)` takes between one and `k` bytes.
pub proof fn lemma_groups_len(pattern: nat, k: nat)
    requires
        k >= 1,
        pattern < capacity(k),
    ensures
        1 <= groups(pattern).len() <= k,
    decreases pattern,
{
    if pattern >= 128 {
        assert(capacity(k) == 128 * capacity((k - 1) as nat));
        if k == 1 {
            assert(capacity(0) == 1);
        } else {
            lemma_groups_len(pattern / 128, (k - 1) as nat);
        }
    }
}

/// Every byte of an encoding but the last has the continuation bit, and the
/// last has not.
pub proof fn lemma_groups_shape(pattern: nat, i: int)
    requires
        0 <= i < groups(pattern).len(),
    ensures
        i < groups(pattern).len() - 1 ==> groups(pattern)[i] >= 128,
        i == groups(pattern).len() - 1 ==> groups(pattern)[i] < 128,
    decreases pattern,
{
    if pattern >= 128 {
        if i > 0 {
            lemma_groups_shape(pattern / 128, i - 1);
        }
    }
}

/// Reading an encoding gives back its pattern and its length, whatever bytes
/// follow it.
pub proof fn lemma_scan_groups(pattern: nat, rest: Seq<u8>, max_len: nat)
    requires
        groups(pattern).len() <= max_len,
    ensures
        scan(groups(pattern) + rest, max_len) == (Parsed::Complete {
            value: pattern,
            len: groups(pattern).len(),
        }),
    decreases pattern,
{
    let s = groups(pattern) + rest;
    if pattern >= 128 {
        assert(s.skip(1) =~= groups(pattern / 128) + rest);
        lemma_scan_groups(pattern / 128, rest, (max_len - 1) as nat);
    }
}

/// A reader that holds only a proper part of an encoding must wait.
pub proof fn lemma_scan_partial(pattern: nat, n: int, max_len: nat)
    requires
        0 <= n < groups(pattern).len() <= max_len,
    ensures
        scan(groups(pattern).take(n), max_len) == Parsed::<nat>::Incomplete,
    decreases pattern,
{
    let s = groups(pattern).take(n);
    if n > 0 {
        assert(pattern >= 128);
        assert(s.skip(1) =~= groups(pattern / 128).take(n - 1));
        lemma_scan_partial(pattern / 128, n - 1, (max_len - 1) as nat);
    }
}

/// What follows a run of continuation bytes decides what the whole holds.
pub proof fn lemma_scan_skip_continuation(s: Seq<u8>, max_len: nat, i: int)
    requires
        0 <= i <= s.len(),
        i <= max_len,
        forall|j: int| 0 <= j < i ==> s[j] >= 128,
    ensures
        scan(s, max_len) is Incomplete <==> scan(s.skip(i), (max_len - i) as nat) is Incomplete,
        scan(s, max_len) is Invalid <==> scan(s.skip(i), (max_len - i) as nat) is Invalid,
        scan(s, max_len) is Complete <==> scan(s.skip(i), (max_len - i) as nat) is Complete,
    decreases i,
{
    if i == 0 {
        assert(s.skip(0) =~= s);
    } else {
        let t = s.skip(1);
        assert(forall|j: int| 0 <= j < i - 1 ==> t[j] == s[j + 1]);
        lemma_scan_skip_continuation(t, (max_len - 1) as nat, i - 1);
        assert(t.skip(i - 1) =~= s.skip(i));
    }
}

/// A complete reading took at least one byte, no more than the width and no
/// more than there were, and its pattern fits in that many groups.
pub proof fn lemma_scan_complete_bounds(s: Seq<u8>, max_len: nat)
    requires
        scan(s, max_len) is Complete,
    ensures
        1 <= scan(s, max_len)->len <= max_len,
        scan(s, max_len)->len <= s.len(),
        scan(s, max_len)->value < capacity(scan(s, max_len)->len),
    decreases max_len,
{
    if s[0] >= 128 {
        lemma_scan_complete_bounds(s.skip(1), (max_len - 1) as nat);
    } else {
        assert(capacity(1) == 128 * capacity(0));
    }
}

/// The canonical encoding is the shortest: whatever bytes read as a pattern,
/// they are at least as many as the canonical bytes of that pattern.
pub proof fn lemma_encoding_is_shortest(s: Seq<u8>, max_len: nat)
    requires
        scan(s, max_len) is Complete,
    ensures
        groups(scan(s, max_len)->value).len() <= scan(s, max_len)->len,
{
    lemma_scan_complete_bounds(s, max_len);
    lemma_groups_len(scan(s, max_len)->value, scan(s, max_len)->len);
}

/// A complete reading looks at no byte behind the ones it took.
pub proof fn lemma_scan_ignores_tail(s: Seq<u8>, t: Seq<u8>, max_len: nat)
    requires
        scan(s, max_len) is Complete,
        t.len() >= scan(s, max_len)->len,
        t.take(scan(s, max_len)->len as int) == s.take(scan(s, max_len)->len as int),
    ensures
        scan(t, max_len) == scan(s, max_len),
    decreases max_len,
{
    lemma_scan_complete_bounds(s, max_len);
    let len = scan(s, max_len)->len as int;
    assert(t[0] == t.take(len)[0]);
    assert(s[0] == s.take(len)[0]);
    if s[0] >= 128 {
        let k = (max_len - 1) as nat;
        lemma_scan_complete_bounds(s.skip(1), k);
        assert(t.skip(1).take(len - 1) =~= t.take(len).skip(1));
        assert(s.skip(1).take(len - 1) =~= s.take(len).skip(1));
        lemma_scan_ignores_tail(s.skip(1), t.skip(1), k);
    }
}

/// The pattern of a 32-bit value fits in five groups, that of a 64-bit value
/// in ten.
pub proof fn lemma_pattern_fits(v: i32, w: i64)
    ensures
        pattern32(v) < capacity(5),
        pattern64(w) < capacity(10),
{
    reveal_with_fuel(capacity, 11);
}

/// Round trip of a 32-bit value: its encoding has one to five bytes, and
/// reading it back gives the value and that length, whatever follows.
pub proof fn lemma_varint_round_trip(v: i32, rest: Seq<u8>)
    ensures
        1 <= encode_i32(v).len() <= 5,
        decode_i32(encode_i32(v) + rest) == (Parsed::Complete {
            value: pattern32(v),
            len: encode_i32(v).len(),
        }),
        value32(pattern32(v)) == v,
{
    lemma_pattern_fits(v, 0);
    lemma_groups_len(pattern32(v), 5);
    lemma_scan_groups(pattern32(v), rest, 5);
}

/// Round trip of a 64-bit value: its encoding has one to ten bytes, and
/// reading it back gives the value and that length, whatever follows.
pub proof fn lemma_varlong_round_trip(v: i64, rest: Seq<u8>)
    ensures
        1 <= encode_i64(v).len() <= 10,
        decode_i64(encode_i64(v) + rest) == (Parsed::Complete {
            value: pattern64(v),
            len: encode_i64(v).len(),
        }),
        value64(pattern64(v)) == v,
{
    lemma_pattern_fits(0, v);
    lemma_groups_len(pattern64(v), 10);
    lemma_scan_groups(pattern64(v), rest, 10);
}

/// Round trip of a text that fits: reading its encoding back gives the text
/// and the encoding's length, whatever follows.
pub proof fn lemma_string_round_trip(text: Seq<char>, rest: Seq<u8>)
    requires
        string_fits(text),
    ensures
        decode_string(encode_string(text) + rest) == (Parsed::Complete {
            value: text,
            len: encode_string(text).len(),
        }),
{
    let body = encode_utf8(text);
    let declared = body.len() as i32;
    let head = encode_i32(declared);
    let s = encode_string(text) + rest;
    assert(s =~= head + (body + rest));
    lemma_varint_round_trip(declared, body + rest);
    assert(s.subrange(head.len() as int, head.len() + declared) =~= body);
    encode_utf8_valid_utf8(text);
    encode_utf8_decode_utf8(text);
}


} // verus!
