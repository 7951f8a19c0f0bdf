//! Variable-length integers: the format, the codecs and their errors.

pub mod metrics;
pub mod model;
pub mod optimized;
pub mod utils;

pub use model::{CONTINUE_BIT, MAX_VARINT_LENGTH, SEGMENT_BITS};
pub use optimized::OptimizedVarInt;

use crate::buffer::bytes_of;
use crate::varint::model::{
    decode_i32, decode_i64, decode_string, encode_batch, encode_i32, encode_i64, encode_string,
    string_fits, value32, value64, Parsed,
};
use bytes::BytesMut;
use vstd::prelude::*;

verus! {

#[verifier::external_type_specification]
#[verifier::external_body]
pub struct ExIoError(std::io::Error);

/// Why an integer or a string could not be written or read.
#[derive(Debug)]
pub enum VarIntError {
    /// The value does not fit the 32-bit length field of the format.
    ValueTooLarge,
    /// The bytes are not the encoding of any value.
    InvalidEncoding,
    /// The bytes end before the value does.
    BufferUnderflow,
    /// The transport failed while the value was moved.
    Io(std::io::Error),
}

/// A `VarIntError` as contracts see it: which kind it is.
pub enum VarIntErrorKind {
    ValueTooLarge,
    InvalidEncoding,
    BufferUnderflow,
    Io,
}

impl View for VarIntError {
    type V = VarIntErrorKind;

    open spec fn view(&self) -> VarIntErrorKind {
        match self {
            VarIntError::ValueTooLarge => VarIntErrorKind::ValueTooLarge,
            VarIntError::InvalidEncoding => VarIntErrorKind::InvalidEncoding,
            VarIntError::BufferUnderflow => VarIntErrorKind::BufferUnderflow,
            VarIntError::Io(_) => VarIntErrorKind::Io,
        }
    }
}

/// The text of an error. The text of a transport error goes on with what the
/// operating system says of it.
pub open spec fn var_int_error_text(kind: VarIntErrorKind) -> Seq<char> {
    match kind {
        VarIntErrorKind::ValueTooLarge => "Value too large for VarInt encoding"@,
        VarIntErrorKind::InvalidEncoding => "Invalid VarInt encoding"@,
        VarIntErrorKind::BufferUnderflow => "Buffer underflow"@,
        VarIntErrorKind::Io => "IO error: "@,
    }
}

impl VarIntError {
    /// The error as a line of text for a log.
    pub fn message(&self) -> (text: String)
        ensures
            !(self is Io) ==> text@ == var_int_error_text(self@),
    {
        match self {
            VarIntError::ValueTooLarge => "Value too large for VarInt encoding".to_owned(),
            VarIntError::InvalidEncoding => "Invalid VarInt encoding".to_owned(),
            VarIntError::BufferUnderflow => "Buffer underflow".to_owned(),
            VarIntError::Io(e) => crate::net::error::io_error_line("IO error: ", e),
        }
    }
}

/// What a decoder found at the front of the bytes it was shown.
#[derive(Debug, Clone, PartialEq, Eq)]
pub enum Decoded<T> {
    /// A value, and the number of bytes it took.
    Value(T, usize),
    /// Not an error: the bytes end before the value does. The caller reads
    /// more and asks again with the same bytes in front.
    NeedMoreBytes,
    /// The bytes are not the start of any value; more bytes cannot mend it.
    Invalid,
}

impl<T> Decoded<T> {
    /// The finding for a caller that can wait: a value, `None` while more
    /// bytes are needed, or the error of bytes that start no value.
    pub fn into_result(self) -> (found: Result<Option<(T, usize)>, VarIntError>)
        ensures
            match self {
                Decoded::Value(value, len) => found == Ok::<Option<(T, usize)>, VarIntError>(
                    Some((value, len)),
                ),
                Decoded::NeedMoreBytes => found == Ok::<Option<(T, usize)>, VarIntError>(None),
                Decoded::Invalid => found matches Err(VarIntError::InvalidEncoding),
            },
    {
        match self {
            Decoded::Value(value, len) => Ok(Some((value, len))),
            Decoded::NeedMoreBytes => Ok(None),
            Decoded::Invalid => Err(VarIntError::InvalidEncoding),
        }
    }

    /// The finding for a caller that holds all the bytes there will be: a
    /// value, or the error of bytes that end too early or start no value.
    pub fn require(self) -> (found: Result<(T, usize), VarIntError>)
        ensures
            match self {
                Decoded::Value(value, len) => found == Ok::<(T, usize), VarIntError>((value, len)),
                Decoded::NeedMoreBytes => found matches Err(VarIntError::BufferUnderflow),
                Decoded::Invalid => found matches Err(VarIntError::InvalidEncoding),
            },
    {
        match self {
            Decoded::Value(value, len) => Ok((value, len)),
            Decoded::NeedMoreBytes => Err(VarIntError::BufferUnderflow),
            Decoded::Invalid => Err(VarIntError::InvalidEncoding),
        }
    }
}

/// A codec for integers and strings on a buffer. Writers append; readers
/// take a whole value from the front or leave the buffer as it was, and say
/// whether the value is still on its way or cannot come.
pub trait VarIntEncoder {
    /// Appends the bytes of a 32-bit value. Every value can be written.
    fn write_varint(&self, buf: &mut BytesMut, value: i32) -> (done: Result<(), VarIntError>)
        ensures
            done is Ok,
            bytes_of(*final(buf)) == bytes_of(*old(buf)) + encode_i32(value),
    ;

    /// Takes a 32-bit value from the front of the buffer, or says that it is not all
    /// there yet, or that the bytes start no value.
    fn read_varint(&self, buf: &mut BytesMut) -> (value: Result<Option<i32>, VarIntError>)
        ensures
            match decode_i32(bytes_of(*old(buf))) {
                Parsed::Complete { value: pattern, len } => value matches Ok(Some(v)) && v
                    == value32(pattern)
                    && bytes_of(*final(buf)) == bytes_of(*old(buf)).skip(len as int),
                Parsed::Incomplete => (value matches Ok(None)) && bytes_of(*final(buf)) == bytes_of(
                    *old(buf),
                ),
                Parsed::Invalid => (value matches Err(VarIntError::InvalidEncoding)) && bytes_of(
                    *final(buf),
                ) == bytes_of(*old(buf)),
            },
    ;

    /// Appends the encodings of the values, in order.
    fn write_varint_batch(&self, values: &[i32], buf: &mut BytesMut) -> (done: Result<
        (),
        VarIntError,
    >)
        ensures
            done is Ok,
            bytes_of(*final(buf)) == bytes_of(*old(buf)) + encode_batch(values@),
    ;

    /// Appends the bytes of a 64-bit value. Every value can be written.
    fn write_i64(&self, buf: &mut BytesMut, value: i64) -> (done: Result<(), VarIntError>)
        ensures
            done is Ok,
            bytes_of(*final(buf)) == bytes_of(*old(buf)) + encode_i64(value),
    ;

    /// Takes a 64-bit value from the front of the buffer, or says that it is not all
    /// there yet, or that the bytes start no value.
    fn read_i64(&self, buf: &mut BytesMut) -> (value: Result<Option<i64>, VarIntError>)
        ensures
            match decode_i64(bytes_of(*old(buf))) {
                Parsed::Complete { value: pattern, len } => value matches Ok(Some(v)) && v
                    == value64(pattern)
                    && bytes_of(*final(buf)) == bytes_of(*old(buf)).skip(len as int),
                Parsed::Incomplete => (value matches Ok(None)) && bytes_of(*final(buf)) == bytes_of(
                    *old(buf),
                ),
                Parsed::Invalid => (value matches Err(VarIntError::InvalidEncoding)) && bytes_of(
                    *final(buf),
                ) == bytes_of(*old(buf)),
            },
    ;

    /// Appends a text, or refuses it before writing anything where it is too
    /// long for the length field.
    fn write_string(&self, buf: &mut BytesMut, value: &str) -> (done: Result<(), VarIntError>)
        ensures
            if string_fits(value@) {
                &&& done is Ok
                &&& bytes_of(*final(buf)) == bytes_of(*old(buf)) + encode_string(value@)
            } else {
                &&& done matches Err(VarIntError::ValueTooLarge)
                &&& bytes_of(*final(buf)) == bytes_of(*old(buf))
            },
    ;

    /// Takes a text from the front of the buffer, or says that it is not all
    /// there yet, or that the bytes start no value.
    fn read_string(&self, buf: &mut BytesMut) -> (value: Result<Option<String>, VarIntError>)
        ensures
            match decode_string(bytes_of(*old(buf))) {
                Parsed::Complete { value: text, len } => value matches Ok(Some(s)) && s@ == text
                    && bytes_of(*final(buf)) == bytes_of(*old(buf)).skip(len as int),
                Parsed::Incomplete => (value matches Ok(None)) && bytes_of(*final(buf)) == bytes_of(
                    *old(buf),
                ),
                Parsed::Invalid => (value matches Err(VarIntError::InvalidEncoding)) && bytes_of(
                    *final(buf),
                ) == bytes_of(*old(buf)),
            },
    ;
}

/// A primitive that knows its own wire form.
pub trait VarIntPrimitive: Sized {
    /// The bytes of the value on the wire.
    spec fn wire_bytes(self) -> Seq<u8>;

    /// What a reader finds at the front of `s`.
    spec fn wire_value(s: Seq<u8>) -> Parsed<Self>;

    /// Appends the value to the buffer.
    fn to_varint(self, buf: &mut BytesMut) -> (done: Result<(), VarIntError>)
        ensures
            done is Ok,
            bytes_of(*final(buf)) == bytes_of(*old(buf)) + self.wire_bytes(),
    ;

    /// Takes a value from the front of the buffer, or says that it is not all
    /// there yet, or that the bytes start no value. Without a value the buffer
    /// stays as it was.
    fn from_varint(buf: &mut BytesMut) -> (value: Result<Option<Self>, VarIntError>)
        ensures
            match Self::wire_value(bytes_of(*old(buf))) {
                Parsed::Complete { value: v, len } => value matches Ok(Some(w)) && w == v
                    && bytes_of(*final(buf)) == bytes_of(*old(buf)).skip(len as int),
                Parsed::Incomplete => (value matches Ok(None)) && bytes_of(*final(buf))
                    == bytes_of(*old(buf)),
                Parsed::Invalid => (value matches Err(VarIntError::InvalidEncoding)) && bytes_of(
                    *final(buf),
                ) == bytes_of(*old(buf)),
            },
    ;
}

impl VarIntPrimitive for i32 {
    open spec fn wire_bytes(self) -> Seq<u8> {
        encode_i32(self)
    }

    open spec fn wire_value(s: Seq<u8>) -> Parsed<i32> {
        match decode_i32(s) {
            Parsed::Complete { value, len } => Parsed::Complete { value: value32(value), len },
            Parsed::Incomplete => Parsed::Incomplete,
            Parsed::Invalid => Parsed::Invalid,
        }
    }

    fn to_varint(self, buf: &mut BytesMut) -> (done: Result<(), VarIntError>) {
        utils::write_varint(buf, self)
    }

    fn from_varint(buf: &mut BytesMut) -> (value: Result<Option<i32>, VarIntError>) {
        utils::read_varint(buf)
    }
}

} // verus!
