//! Frames: a length, a packet id and a payload.
//!
//! On the wire a frame is the length of its body, then the body; the body is
//! the packet id, then the payload. The length counts the body only.

use crate::buffer::{bytes_of, consume, contents};
use crate::net::error::{ServerError, ServerErrorView};
use crate::net::protocol::{packet_error_text, Packet, PacketError, PacketErrorView};
use crate::varint::model::{
    decode_i32, encode_i32, groups, lemma_groups_len, lemma_pattern_fits, lemma_scan_groups,
    lemma_scan_partial, lemma_varint_round_trip, pattern32, value32, Parsed,
};
use crate::varint::utils::{encode_varint, peek_varint, read_varint};
use crate::varint::Decoded;
use bytes::BytesMut;
use vstd::prelude::*;

verus! {

/// The body of a frame: the packet id, then the payload.
pub open spec fn frame_body(id: i32, payload: Seq<u8>) -> Seq<u8> {
    encode_i32(id) + payload
}

/// Whether a body may travel: no longer than the codec allows, and no longer
/// than the 32-bit length field can say.
pub open spec fn body_fits(body: Seq<u8>, max_size: nat) -> bool {
    body.len() <= max_size && body.len() <= u32::MAX
}

/// The length field of a frame: the body's length as an unsigned 32-bit
/// pattern.
pub open spec fn length_field(len: nat) -> Seq<u8> {
    groups(len)
}

/// The bytes of a frame: the length of the body, then the body.
pub open spec fn frame(body: Seq<u8>) -> Seq<u8> {
    length_field(body.len()) + body
}

/// What a frame reader finds at the front of a byte sequence.
pub enum FrameScan {
    /// A whole frame: its body, and the number of bytes that the frame took.
    Frame { body: Seq<u8>, len: nat },
    /// The length field or the body is not all there yet.
    Incomplete,
    /// The length field is not the encoding of any number.
    BadLength,
    /// The declared length is more than the codec allows; `prefix` bytes held
    /// the length field.
    Oversized { prefix: nat },
}

/// Reads one frame from the front of `s`, for a codec that allows bodies of
/// up to `max_size` bytes.
pub open spec fn scan_frame(s: Seq<u8>, max_size: nat) -> FrameScan {
    match decode_i32(s) {
        Parsed::Complete { value, len } => {
            let declared = value % 0x1_0000_0000;
            if declared > max_size {
                FrameScan::Oversized { prefix: len }
            } else if s.len() - len < declared {
                FrameScan::Incomplete
            } else {
                FrameScan::Frame {
                    body: s.subrange(len as int, (len + declared) as int),
                    len: len + declared,
                }
            }
        },
        Parsed::Incomplete => FrameScan::Incomplete,
        Parsed::Invalid => FrameScan::BadLength,
    }
}

/// The text that reports a frame longer than the codec allows.
pub open spec fn packet_too_large_text() -> Seq<char> {
    "パケットが大きすぎます"@
}

/// The text that reports a frame body without a packet id.
pub open spec fn invalid_packet_id_text() -> Seq<char> {
    "Invalid packet ID"@
}

/// Reads a packet of type `P` from a frame body: the packet id, then the
/// payload. The payload is read first; a packet that was read under another
/// type's id is refused.
pub open spec fn parse_body<P: Packet>(body: Seq<u8>) -> Result<P::V, ServerErrorView> {
    match decode_i32(body) {
        Parsed::Complete { value, len } => match P::parse(body.skip(len as int)) {
            Err(error) => Err(error),
            Ok((packet, _)) => if value32(value) == P::id() {
                Ok(packet)
            } else {
                Err(
                    ServerErrorView::Protocol(
                        packet_error_text(PacketErrorView::InvalidPacketId(value32(value))),
                    ),
                )
            },
        },
        _ => Err(ServerErrorView::Protocol(invalid_packet_id_text())),
    }
}

/// The text that reports a length field that is no number.
pub open spec fn invalid_length_text() -> Seq<char> {
    "Invalid packet length"@
}

/// A reader that holds only a proper part of a frame must wait; a reader that
/// holds the whole frame gets its body and is left with what followed it; and
/// with nothing left there is no second frame.
pub proof fn lemma_frame_boundary(body: Seq<u8>, max_size: nat, n: int, rest: Seq<u8>)
    requires
        body_fits(body, max_size),
        0 <= n < frame(body).len(),
    ensures
        scan_frame(frame(body).take(n), max_size) == FrameScan::Incomplete,
        scan_frame(frame(body) + rest, max_size) == (FrameScan::Frame {
            body,
            len: frame(body).len(),
        }),
        (frame(body) + rest).skip(frame(body).len() as int) == rest,
        scan_frame(Seq::empty(), max_size) == FrameScan::Incomplete,
{
    let head = length_field(body.len());
    let whole = frame(body);
    lemma_length_field(body.len());
    assert(whole + rest =~= head + (body + rest));
    lemma_scan_groups(body.len(), body + rest, 5);
    assert((whole + rest).subrange(head.len() as int, (head.len() + body.len()) as int) =~= body);
    assert((whole + rest).skip(whole.len() as int) =~= rest);
    let part = whole.take(n);
    if n < head.len() {
        assert(part =~= head.take(n));
        lemma_scan_partial(body.len(), n, 5);
    } else {
        assert(part =~= head + body.take(n - head.len()));
        lemma_scan_groups(body.len(), body.take(n - head.len()), 5);
    }
}

/// The length field of a body that fits has one to five bytes.
pub proof fn lemma_length_field(len: nat)
    requires
        len <= u32::MAX,
    ensures
        1 <= length_field(len).len() <= 5,
{
    lemma_pattern_fits(-1i32, 0i64);
    lemma_groups_len(len, 5);
}

/// The frame codec: it knows the longest body that it lets through.
pub struct PacketCodec {
    max_packet_size: usize,
}

impl PacketCodec {
    /// The longest body that the codec lets through, in bytes.
    pub closed spec fn max_size(&self) -> nat {
        self.max_packet_size as nat
    }

    /// A codec that lets bodies of up to `max_packet_size` bytes through.
    pub fn new(max_packet_size: usize) -> (codec: Self)
        ensures
            codec.max_size() == max_packet_size,
    {
        Self { max_packet_size }
    }

    /// The longest body that the codec lets through, in bytes.
    pub fn max_packet_size(&self) -> (size: usize)
        ensures
            size == self.max_size(),
    {
        self.max_packet_size
    }

    /// Appends the frame of a packet id and a payload to `buf`. A body longer
    /// than allowed is refused before anything is written.
    pub fn encode_frame(&self, packet_id: i32, payload: &[u8], buf: &mut BytesMut) -> (done:
        Result<(), ServerError>)
        ensures
            if body_fits(frame_body(packet_id, payload@), self.max_size()) {
                &&& done is Ok
                &&& bytes_of(*final(buf)) == bytes_of(*old(buf)) + frame(
                    frame_body(packet_id, payload@),
                )
            } else {
                &&& done matches Err(error) && error@ == ServerErrorView::Protocol(
                    packet_too_large_text(),
                )
                &&& bytes_of(*final(buf)) == bytes_of(*old(buf))
            },
    {
        let id = encode_varint(packet_id);
        proof {
            lemma_varint_round_trip(packet_id, Seq::empty());
        }
        let limit: usize = if self.max_packet_size < u32::MAX as usize {
            self.max_packet_size
        } else {
            u32::MAX as usize
        };
        if payload.len() > limit || id.len() > limit - payload.len() {
            return Err(ServerError::Protocol("パケットが大きすぎます".to_owned()));
        }
        let len: usize = id.len() + payload.len();
        let head = encode_varint(signed_length(len as u32));
        buf.extend_from_slice(head.as_slice());
        buf.extend_from_slice(id.as_slice());
        buf.extend_from_slice(payload);
        proof {
            assert(bytes_of(*buf) =~= bytes_of(*old(buf)) + frame(frame_body(packet_id, payload@)));
        }
        Ok(())
    }

    /// Takes one frame from the front of `buf` and returns its body.
    ///
    /// While the frame is not all there, nothing is taken and `None` comes
    /// back: the caller reads more and asks again. A length field that is no
    /// number is reported and nothing is taken. A declared length above the
    /// allowed one is reported after the length field has been taken: the
    /// stream cannot be read on from there.
    pub fn decode_frame(&self, buf: &mut BytesMut) -> (frame: Result<Option<BytesMut>, ServerError>)
        ensures
            match scan_frame(bytes_of(*old(buf)), self.max_size()) {
                FrameScan::Frame { body, len } => frame matches Ok(Some(taken)) && bytes_of(taken)
                    == body && bytes_of(*final(buf)) == bytes_of(*old(buf)).skip(len as int),
                FrameScan::Incomplete => (frame matches Ok(None)) && bytes_of(*final(buf))
                    == bytes_of(*old(buf)),
                FrameScan::BadLength => frame matches Err(error) && error@
                    == ServerErrorView::Protocol(invalid_length_text()) && bytes_of(*final(buf))
                    == bytes_of(*old(buf)),
                FrameScan::Oversized { prefix } => frame matches Err(error) && error@
                    == ServerErrorView::Protocol(packet_too_large_text()) && bytes_of(*final(buf))
                    == bytes_of(*old(buf)).skip(prefix as int),
            },
    {
        let bytes = contents(buf);
        match peek_varint(bytes) {
            Decoded::Value(declared, prefix) => {
                let declared: usize = unsigned_length(declared);
                if declared > self.max_packet_size {
                    consume(buf, prefix);
                    return Err(ServerError::Protocol("パケットが大きすぎます".to_owned()));
                }
                if bytes.len() - prefix < declared {
                    return Ok(None);
                }
                consume(buf, prefix);
                let body = buf.split_to(declared);
                proof {
                    let s = bytes_of(*old(buf));
                    assert(s.skip(prefix as int).take(declared as int) =~= s.subrange(
                        prefix as int,
                        prefix + declared,
                    ));
                    assert(s.skip(prefix as int).skip(declared as int) =~= s.skip(
                        prefix + declared,
                    ));
                }
                Ok(Some(body))
            },
            Decoded::NeedMoreBytes => Ok(None),
            Decoded::Invalid => Err(ServerError::Protocol("Invalid packet length".to_owned())),
        }
    }

    /// Appends the frame of a packet to `buf`, or reports why the packet
    /// cannot be sent and writes nothing.
    pub fn encode_packet<P: Packet>(&self, packet: &P, buf: &mut BytesMut) -> (done: Result<
        (),
        ServerError,
    >)
        ensures
            match packet.payload() {
                Ok(payload) => {
                    let body = frame_body(P::id(), payload);
                    if body_fits(body, self.max_size()) {
                        done is Ok && bytes_of(*final(buf)) == bytes_of(*old(buf)) + frame(body)
                    } else {
                        done matches Err(error) && error@ == ServerErrorView::Protocol(
                            packet_too_large_text(),
                        ) && bytes_of(*final(buf)) == bytes_of(*old(buf))
                    }
                },
                Err(e) => done matches Err(error) && error@ == e && bytes_of(*final(buf))
                    == bytes_of(*old(buf)),
            },
    {
        let mut payload = BytesMut::new();
        match packet.encode(&mut payload) {
            Ok(()) => {
                assert(bytes_of(payload) =~= packet.payload()->Ok_0);
                self.encode_frame(packet.packet_id(), contents(&payload), buf)
            },
            Err(error) => Err(error),
        }
    }

    /// Takes one frame from the front of `buf` and reads a packet of type `P`
    /// from its body: the packet id, then the payload. Bytes of the body
    /// behind the packet are dropped with it.
    pub fn decode_packet<P: Packet>(&self, buf: &mut BytesMut) -> (packet: Result<
        Option<P>,
        ServerError,
    >)
        ensures
            match scan_frame(bytes_of(*old(buf)), self.max_size()) {
                FrameScan::Frame { body, len } => bytes_of(*final(buf)) == bytes_of(
                    *old(buf),
                ).skip(len as int) && match parse_body::<P>(body) {
                    Ok(value) => packet matches Ok(Some(p)) && p@ == value,
                    Err(e) => packet matches Err(error) && error@ == e,
                },
                FrameScan::Incomplete => (packet matches Ok(None)) && bytes_of(*final(buf))
                    == bytes_of(*old(buf)),
                FrameScan::BadLength => packet matches Err(error) && error@
                    == ServerErrorView::Protocol(invalid_length_text()) && bytes_of(*final(buf))
                    == bytes_of(*old(buf)),
                FrameScan::Oversized { prefix } => packet matches Err(error) && error@
                    == ServerErrorView::Protocol(packet_too_large_text()) && bytes_of(*final(buf))
                    == bytes_of(*old(buf)).skip(prefix as int),
            },
    {
        match self.decode_frame(buf) {
            Ok(Some(body)) => {
                let mut body = body;
                let id = match read_varint(&mut body) {
                    Ok(Some(id)) => id,
                    _ => {
                        return Err(ServerError::Protocol("Invalid packet ID".to_owned()));
                    },
                };
                match P::decode(&mut body) {
                    Ok(packet) => if packet.packet_id() == id {
                        Ok(Some(packet))
                    } else {
                        Err(ServerError::from(PacketError::InvalidPacketId(id)))
                    },
                    Err(error) => Err(error),
                }
            },
            Ok(None) => Ok(None),
            Err(error) => Err(error),
        }
    }
}

/// The signed 32-bit value with the same bit pattern as `len`.
fn signed_length(len: u32) -> (value: i32)
    ensures
        pattern32(value) == len,
{
    if len <= i32::MAX as u32 {
        len as i32
    } else {
        (len as i64 - 0x1_0000_0000) as i32
    }
}

/// The unsigned 32-bit pattern of a length that was read as a signed value.
fn unsigned_length(value: i32) -> (len: usize)
    ensures
        len == pattern32(value),
{
    if value >= 0 {
        value as usize
    } else {
        (value as i64 + 0x1_0000_0000) as usize
    }
}

} // verus!
