//! Integers and strings on byte slices and on buffers.
//!
//! The `peek_*` functions look at a slice and consume nothing; the `read_*`
//! functions take from a buffer exactly what a successful peek found, and leave
//! the buffer as it was otherwise, telling bytes that are not all there yet
//! from bytes that start no value; the `write_*` functions append.

use crate::buffer::{bytes_of, consume, contents};
use crate::varint::model::{
    capacity, decode_block, decode_i32, decode_i64, decode_string, encode_batch, encode_i32,
    encode_i64, encode_string, groups, lemma_scan_complete_bounds, lemma_scan_skip_continuation,
    pattern32, pattern64, scan, string_fits, value32, value64, Parsed, CONTINUE_BIT,
    MAX_VARINT_LENGTH, MAX_VARLONG_LENGTH, SEGMENT_BITS,
};
use crate::varint::{Decoded, VarIntError};
use bytes::BytesMut;
use vstd::prelude::*;
use vstd::slice::{slice_subrange, slice_to_vec};
use vstd::utf8::{decode_utf8_encode_utf8, encode_utf8, valid_utf8};

verus! {

#[verifier::external_type_specification]
#[verifier::external_body]
pub struct ExFromUtf8Error(std::string::FromUtf8Error);

/// `String::from_utf8`: the bytes become a `String` exactly when they are
/// valid UTF-8, and the string then holds those bytes.
pub assume_specification[ String::from_utf8 ](bytes: Vec<u8>) -> (text: Result<
    String,
    std::string::FromUtf8Error,
>)
    ensures
        text is Ok <==> valid_utf8(bytes@),
        text matches Ok(s) ==> encode_utf8(s@) == bytes@,
;

/// Whether the byte announces a further byte.
fn has_continuation(byte: u8) -> (more: bool)
    ensures
        more == (byte >= 128),
{
    assert((byte & 0x80 != 0) == (byte >= 128)) by (bit_vector);
    byte & CONTINUE_BIT != 0
}

/// The seven payload bits of the byte.
fn payload(byte: u8) -> (bits: u8)
    ensures
        bits == byte % 128,
{
    assert(byte & 0x7F == byte % 128) by (bit_vector);
    byte & SEGMENT_BITS
}

/// The canonical bytes of an unsigned pattern.
fn encode_pattern(pattern: u64) -> (out: Vec<u8>)
    ensures
        out@ == groups(pattern as nat),
{
    let mut out: Vec<u8> = Vec::new();
    let mut rest: u64 = pattern;
    while rest >= 128
        invariant
            out@ + groups(rest as nat) == groups(pattern as nat),
        decreases rest,
    {
        let low: u8 = (rest & 0x7F) as u8;
        let next: u64 = rest >> 7;
        assert(rest & 0x7F == rest % 128) by (bit_vector);
        assert(rest >> 7 == rest / 128) by (bit_vector);
        assert(low | 0x80 == low + 128) by (bit_vector)
            requires
                low < 128,
        ;
        let ghost before = out@;
        out.push(low | CONTINUE_BIT);
        assert(out@ + groups(next as nat) =~= before + groups(rest as nat));
        rest = next;
    }
    let ghost before = out@;
    out.push(rest as u8);
    assert(out@ =~= before + groups(rest as nat));
    out
}

/// The unsigned pattern of a 32-bit value.
fn pattern_of_i32(value: i32) -> (pattern: u64)
    ensures
        pattern == pattern32(value),
{
    if value >= 0 {
        value as u64
    } else {
        (value as i64 + 0x1_0000_0000) as u64
    }
}

/// The unsigned pattern of a 64-bit value.
fn pattern_of_i64(value: i64) -> (pattern: u64)
    ensures
        pattern == pattern64(value),
{
    if value >= 0 {
        value as u64
    } else {
        (value as i128 + 0x1_0000_0000_0000_0000) as u64
    }
}

/// The 32-bit value of the low 32 bits of a pattern.
fn i32_of_pattern(pattern: u128) -> (value: i32)
    ensures
        value == value32(pattern as nat),
{
    let low: u128 = pattern % 0x1_0000_0000;
    if low < 0x8000_0000 {
        low as i32
    } else {
        (low as i64 - 0x1_0000_0000) as i32
    }
}

/// The 64-bit value of the low 64 bits of a pattern.
fn i64_of_pattern(pattern: u128) -> (value: i64)
    ensures
        value == value64(pattern as nat),
{
    let low: u128 = pattern % 0x1_0000_0000_0000_0000;
    if low < 0x8000_0000_0000_0000 {
        low as i64
    } else {
        (low as i128 - 0x1_0000_0000_0000_0000) as i64
    }
}

/// `capacity` grows with the number of groups.
proof fn lemma_capacity_grows(a: nat, b: nat)
    requires
        a <= b,
    ensures
        1 <= capacity(a) <= capacity(b),
    decreases b,
{
    if b > 0 {
        if a < b {
            lemma_capacity_grows(a, (b - 1) as nat);
        } else {
            lemma_capacity_grows((a - 1) as nat, (b - 1) as nat);
        }
    }
}

/// Reads one unsigned pattern of at most `max_len` bytes from the front of
/// `bytes`: first the terminating byte is found, then the groups are folded
/// from the most significant down.
fn peek_pattern(bytes: &[u8], max_len: usize) -> (found: Decoded<u128>)
    requires
        1 <= max_len <= 10,
    ensures
        match scan(bytes@, max_len as nat) {
            Parsed::Complete { value, len } => found == Decoded::Value(value as u128, len as usize)
                && value <= u128::MAX && 1 <= len <= max_len && len <= bytes@.len(),
            Parsed::Incomplete => found == Decoded::<u128>::NeedMoreBytes,
            Parsed::Invalid => found == Decoded::<u128>::Invalid,
        },
{
    let mut end: usize = 0;
    while end < max_len && end < bytes.len() && has_continuation(bytes[end])
        invariant
            end <= max_len,
            end <= bytes@.len(),
            forall|j: int| 0 <= j < end ==> bytes@[j] >= 128,
        decreases max_len - end,
    {
        end += 1;
    }
    proof {
        lemma_scan_skip_continuation(bytes@, max_len as nat, end as int);
    }
    if end == max_len {
        return Decoded::Invalid;
    }
    if end == bytes.len() {
        return Decoded::NeedMoreBytes;
    }
    let mut acc: u128 = bytes[end] as u128;
    let mut at: usize = end;
    proof {
        assert(capacity(1) == 128 * capacity(0));
    }
    while at > 0
        invariant
            at <= end < max_len <= 10,
            end < bytes@.len(),
            forall|j: int| 0 <= j < end ==> bytes@[j] >= 128,
            scan(bytes@.skip(at as int), (max_len - at) as nat) == (Parsed::Complete {
                value: acc as nat,
                len: (end + 1 - at) as nat,
            }),
            acc < capacity((end + 1 - at) as nat),
        decreases at,
    {
        proof {
            lemma_capacity_grows((end + 1 - at) as nat, 9);
            reveal_with_fuel(capacity, 10);
            assert(capacity(9) == 0x8000_0000_0000_0000);
            assert(bytes@.skip(at - 1).skip(1) =~= bytes@.skip(at as int));
        }
        at -= 1;
        acc = acc * 128 + payload(bytes[at]) as u128;
    }
    proof {
        assert(bytes@.skip(0) =~= bytes@);
        lemma_scan_complete_bounds(bytes@, max_len as nat);
    }
    Decoded::Value(acc, end + 1)
}

/// The bytes of a 32-bit value: between one and five of them.
pub fn encode_varint(value: i32) -> (out: Vec<u8>)
    ensures
        out@ == encode_i32(value),
        1 <= out@.len() <= 5,
{
    proof {
        crate::varint::model::lemma_varint_round_trip(value, Seq::empty());
    }
    encode_pattern(pattern_of_i32(value))
}

/// The bytes of a 64-bit value: between one and ten of them.
pub fn encode_varlong(value: i64) -> (out: Vec<u8>)
    ensures
        out@ == encode_i64(value),
        1 <= out@.len() <= 10,
{
    proof {
        crate::varint::model::lemma_varlong_round_trip(value, Seq::empty());
    }
    encode_pattern(pattern_of_i64(value))
}

/// Looks for a 32-bit value at the front of `bytes`.
pub fn peek_varint(bytes: &[u8]) -> (found: Decoded<i32>)
    ensures
        match decode_i32(bytes@) {
            Parsed::Complete { value, len } => found == Decoded::Value(value32(value), len as usize)
                && 1 <= len <= 5 && len <= bytes@.len(),
            Parsed::Incomplete => found == Decoded::<i32>::NeedMoreBytes,
            Parsed::Invalid => found == Decoded::<i32>::Invalid,
        },
{
    match peek_pattern(bytes, MAX_VARINT_LENGTH) {
        Decoded::Value(pattern, len) => Decoded::Value(i32_of_pattern(pattern), len),
        Decoded::NeedMoreBytes => Decoded::NeedMoreBytes,
        Decoded::Invalid => Decoded::Invalid,
    }
}

/// Looks for a 64-bit value at the front of `bytes`.
pub fn peek_varlong(bytes: &[u8]) -> (found: Decoded<i64>)
    ensures
        match decode_i64(bytes@) {
            Parsed::Complete { value, len } => found == Decoded::Value(value64(value), len as usize)
                && 1 <= len <= 10 && len <= bytes@.len(),
            Parsed::Incomplete => found == Decoded::<i64>::NeedMoreBytes,
            Parsed::Invalid => found == Decoded::<i64>::Invalid,
        },
{
    match peek_pattern(bytes, MAX_VARLONG_LENGTH) {
        Decoded::Value(pattern, len) => Decoded::Value(i64_of_pattern(pattern), len),
        Decoded::NeedMoreBytes => Decoded::NeedMoreBytes,
        Decoded::Invalid => Decoded::Invalid,
    }
}

/// Takes a 32-bit value from the front of the buffer. While it is not all
/// there, `None` comes back and the caller reads more; bytes that start no
/// value are an error. Without a value the buffer stays as it was.
pub fn read_varint(buf: &mut BytesMut) -> (value: Result<Option<i32>, VarIntError>)
    ensures
        match decode_i32(bytes_of(*old(buf))) {
            Parsed::Complete { value: pattern, len } => value matches Ok(Some(v)) && v
                == value32(pattern)
                && bytes_of(*final(buf)) == bytes_of(*old(buf)).skip(len as int),
            Parsed::Incomplete => (value matches Ok(None)) && bytes_of(*final(buf)) == bytes_of(
                *old(buf),
            ),
            Parsed::Invalid => (value matches Err(VarIntError::InvalidEncoding)) && bytes_of(
                *final(buf),
            ) == bytes_of(*old(buf)),
        },
{
    match peek_varint(contents(buf)) {
        Decoded::Value(value, len) => {
            consume(buf, len);
            Ok(Some(value))
        },
        Decoded::NeedMoreBytes => Ok(None),
        Decoded::Invalid => Err(VarIntError::InvalidEncoding),
    }
}

/// Appends the bytes of a 32-bit value. Every value can be written.
pub fn write_varint(buf: &mut BytesMut, value: i32) -> (done: Result<(), VarIntError>)
    ensures
        done is Ok,
        bytes_of(*final(buf)) == bytes_of(*old(buf)) + encode_i32(value),
{
    let bytes = encode_varint(value);
    buf.extend_from_slice(bytes.as_slice());
    Ok(())
}

/// Appends the encodings of the values, in order.
pub fn write_varint_batch(values: &[i32], buf: &mut BytesMut)
    ensures
        bytes_of(*final(buf)) == bytes_of(*old(buf)) + encode_batch(values@),
{
    let mut i: usize = 0;
    while i < values.len()
        invariant
            i <= values@.len(),
            bytes_of(*buf) == bytes_of(*old(buf)) + encode_batch(values@.take(i as int)),
        decreases values@.len() - i,
    {
        let _ = write_varint(buf, values[i]);
        proof {
            let next = values@.take(i + 1);
            assert(next.drop_last() =~= values@.take(i as int));
            assert(bytes_of(*buf) =~= bytes_of(*old(buf)) + encode_batch(next));
        }
        i += 1;
    }
    proof {
        assert(values@.take(i as int) =~= values@);
    }
}

/// Appends the bytes of a 64-bit value. Every value can be written.
pub fn write_i64(buf: &mut BytesMut, value: i64) -> (done: Result<(), VarIntError>)
    ensures
        done is Ok,
        bytes_of(*final(buf)) == bytes_of(*old(buf)) + encode_i64(value),
{
    let bytes = encode_varlong(value);
    buf.extend_from_slice(bytes.as_slice());
    Ok(())
}

/// Takes a 64-bit value from the front of the buffer. While it is not all
/// there, `None` comes back and the caller reads more; bytes that start no
/// value are an error. Without a value the buffer stays as it was.
pub fn read_i64(buf: &mut BytesMut) -> (value: Result<Option<i64>, VarIntError>)
    ensures
        match decode_i64(bytes_of(*old(buf))) {
            Parsed::Complete { value: pattern, len } => value matches Ok(Some(v)) && v
                == value64(pattern)
                && bytes_of(*final(buf)) == bytes_of(*old(buf)).skip(len as int),
            Parsed::Incomplete => (value matches Ok(None)) && bytes_of(*final(buf)) == bytes_of(
                *old(buf),
            ),
            Parsed::Invalid => (value matches Err(VarIntError::InvalidEncoding)) && bytes_of(
                *final(buf),
            ) == bytes_of(*old(buf)),
        },
{
    match peek_varlong(contents(buf)) {
        Decoded::Value(value, len) => {
            consume(buf, len);
            Ok(Some(value))
        },
        Decoded::NeedMoreBytes => Ok(None),
        Decoded::Invalid => Err(VarIntError::InvalidEncoding),
    }
}

/// Looks for a length-prefixed run of bytes at the front of `bytes` and says
/// where it lies: the index of its first byte and the index behind its last.
pub fn peek_block(bytes: &[u8]) -> (found: Decoded<usize>)
    ensures
        match decode_block(bytes@) {
            Parsed::Complete { value, len } => found matches Decoded::Value(start, end)
                && start <= end == len <= bytes@.len()
                && value == bytes@.subrange(start as int, end as int),
            Parsed::Incomplete => found is NeedMoreBytes,
            Parsed::Invalid => found is Invalid,
        },
{
    match peek_varint(bytes) {
        Decoded::Value(declared, len) => {
            if declared < 0 {
                Decoded::Invalid
            } else if bytes.len() - len < declared as usize {
                Decoded::NeedMoreBytes
            } else {
                Decoded::Value(len, len + declared as usize)
            }
        },
        Decoded::NeedMoreBytes => Decoded::NeedMoreBytes,
        Decoded::Invalid => Decoded::Invalid,
    }
}

/// Looks for a text at the front of `bytes`.
pub fn peek_string(bytes: &[u8]) -> (found: Decoded<String>)
    ensures
        match decode_string(bytes@) {
            Parsed::Complete { value, len } => found matches Decoded::Value(text, n) && text@
                == value && n == len && len <= bytes@.len(),
            Parsed::Incomplete => found is NeedMoreBytes,
            Parsed::Invalid => found is Invalid,
        },
{
    match peek_block(bytes) {
        Decoded::Value(start, end) => {
            let body = slice_subrange(bytes, start, end);
            match String::from_utf8(slice_to_vec(body)) {
                Ok(text) => {
                    proof {
                        decode_utf8_encode_utf8(body@);
                        vstd::utf8::encode_utf8_decode_utf8(text@);
                    }
                    Decoded::Value(text, end)
                },
                Err(_) => Decoded::Invalid,
            }
        },
        Decoded::NeedMoreBytes => Decoded::NeedMoreBytes,
        Decoded::Invalid => Decoded::Invalid,
    }
}

/// Appends a text: its length in bytes, then its UTF-8 form. A text too long
/// for the length field is refused before anything is written.
pub fn write_string(buf: &mut BytesMut, value: &str) -> (done: Result<(), VarIntError>)
    ensures
        if string_fits(value@) {
            &&& done is Ok
            &&& bytes_of(*final(buf)) == bytes_of(*old(buf)) + encode_string(value@)
        } else {
            &&& done matches Err(VarIntError::ValueTooLarge)
            &&& bytes_of(*final(buf)) == bytes_of(*old(buf))
        },
{
    let body = value.as_bytes();
    if body.len() > i32::MAX as usize {
        return Err(VarIntError::ValueTooLarge);
    }
    let head = encode_varint(body.len() as i32);
    buf.extend_from_slice(head.as_slice());
    buf.extend_from_slice(body);
    proof {
        assert(bytes_of(*buf) =~= bytes_of(*old(buf)) + encode_string(value@));
    }
    Ok(())
}

/// Takes a text from the front of the buffer. While it is not all
/// there, `None` comes back and the caller reads more; bytes that start no
/// value are an error. Without a value the buffer stays as it was.
pub fn read_string(buf: &mut BytesMut) -> (value: Result<Option<String>, VarIntError>)
    ensures
        match decode_string(bytes_of(*old(buf))) {
            Parsed::Complete { value: text, len } => value matches Ok(Some(s)) && s@ == text
                && bytes_of(*final(buf)) == bytes_of(*old(buf)).skip(len as int),
            Parsed::Incomplete => (value matches Ok(None)) && bytes_of(*final(buf)) == bytes_of(
                *old(buf),
            ),
            Parsed::Invalid => (value matches Err(VarIntError::InvalidEncoding)) && bytes_of(
                *final(buf),
            ) == bytes_of(*old(buf)),
        },
{
    match peek_string(contents(buf)) {
        Decoded::Value(value, len) => {
            consume(buf, len);
            Ok(Some(value))
        },
        Decoded::NeedMoreBytes => Ok(None),
        Decoded::Invalid => Err(VarIntError::InvalidEncoding),
    }
}

} // verus!
