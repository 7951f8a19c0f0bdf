//! The byte buffer that every codec in this crate reads from and writes to.
//!
//! The buffer is `bytes::BytesMut`. Verus cannot look inside it, so this module
//! gives its contents a name, [`bytes_of`], and states over that name what the
//! handful of buffer operations used by the crate do. Nothing here is proved:
//! each contract restates the documented behaviour of the `bytes` crate.

use bytes::{Buf, BytesMut};
use vstd::prelude::*;

verus! {

#[verifier::external_type_specification]
#[verifier::external_body]
pub struct ExBytesMut(bytes::BytesMut);

/// The bytes that a buffer holds, the next one to be read first.
pub uninterp spec fn bytes_of(buf: BytesMut) -> Seq<u8>;

/// `BytesMut::new`: a buffer that holds no bytes.
pub assume_specification[ BytesMut::new ]() -> (buf: BytesMut)
    ensures
        bytes_of(buf) == Seq::<u8>::empty(),
;

/// `BytesMut::len`: the number of bytes held.
pub assume_specification[ BytesMut::len ](buf: &BytesMut) -> (n: usize)
    ensures
        n == bytes_of(*buf).len(),
;

/// `BytesMut::extend_from_slice`: the given bytes are appended behind those
/// already held. Running out of memory is not modelled, as for `Vec`.
pub assume_specification[ BytesMut::extend_from_slice ](buf: &mut BytesMut, extend: &[u8])
    ensures
        bytes_of(*final(buf)) == bytes_of(*old(buf)) + extend@,
;

/// `BytesMut::split_to`: the first `at` bytes leave the buffer and come back as
/// a buffer of their own; the rest stays. The call panics when `at` exceeds the
/// length, which the precondition rules out.
pub assume_specification[ BytesMut::split_to ](buf: &mut BytesMut, at: usize) -> (front: BytesMut)
    requires
        at <= bytes_of(*old(buf)).len(),
    ensures
        bytes_of(front) == bytes_of(*old(buf)).take(at as int),
        bytes_of(*final(buf)) == bytes_of(*old(buf)).skip(at as int),
;

/// `Deref` of `BytesMut`: the held bytes as a slice, without consuming any.
#[verifier::external_body]
pub(crate) fn contents(buf: &BytesMut) -> (slice: &[u8])
    ensures
        slice@ == bytes_of(*buf),
{
    &buf[..]
}

/// `Buf::advance` on `BytesMut`: the first `cnt` bytes are dropped. The call
/// panics when `cnt` exceeds the length, which the precondition rules out.
#[verifier::external_body]
pub(crate) fn consume(buf: &mut BytesMut, cnt: usize)
    requires
        cnt <= bytes_of(*old(buf)).len(),
    ensures
        bytes_of(*final(buf)) == bytes_of(*old(buf)).skip(cnt as int),
{
    buf.advance(cnt)
}

} // verus!
