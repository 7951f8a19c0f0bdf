//! The handshake packet: the first packet of every connection.

use crate::buffer::{bytes_of, consume, contents};
use crate::fixed::{be_decode, be_encode, be_value, encode_u16, lemma_be_bytes_len};
use crate::net::error::{ServerError, ServerErrorView};
use crate::net::protocol::{incomplete_packet_text, Packet, PacketState};
use crate::varint::model::{decode_i32, encode_i32, encode_string, string_fits, value32};
use crate::varint::utils::{encode_varint, peek_varint};
use crate::varint::{Decoded, VarIntError, VarIntErrorKind};
use bytes::BytesMut;
use vstd::prelude::*;
use vstd::slice::{slice_subrange, slice_to_vec};
use vstd::utf8::{decode_utf8, decode_utf8_encode_utf8, encode_utf8_decode_utf8, valid_utf8};

verus! {

/// What a client says first: its protocol version, the address and port it
/// dialled, and the phase it asks for.
#[derive(Debug)]
pub struct HandshakePacket {
    pub protocol_version: i32,
    pub server_address: String,
    pub server_port: u16,
    pub next_state: PacketState,
}

/// A `HandshakePacket` as contracts see it.
pub struct HandshakeView {
    pub protocol_version: i32,
    pub server_address: Seq<char>,
    pub server_port: u16,
    pub next_state: PacketState,
}

impl View for HandshakePacket {
    type V = HandshakeView;

    open spec fn view(&self) -> HandshakeView {
        HandshakeView {
            protocol_version: self.protocol_version,
            server_address: self.server_address@,
            server_port: self.server_port,
            next_state: self.next_state,
        }
    }
}

/// The error text for a payload that ends inside the protocol version.
pub open spec fn bad_version_text() -> Seq<char> {
    "プロトコルバージョンの読み取りに失敗"@
}

/// The error text for a payload that ends inside the address length.
pub open spec fn bad_address_length_text() -> Seq<char> {
    "アドレス長の読み取りに失敗"@
}

/// The error text for an address that is not valid UTF-8.
pub open spec fn bad_address_text() -> Seq<char> {
    "不正なUTF-8シーケンス"@
}

/// The error text for a payload that ends inside the next state.
pub open spec fn bad_next_state_length_text() -> Seq<char> {
    "次の状態の読み取りに失敗"@
}

/// The error text for a next state that a handshake cannot ask for.
pub open spec fn bad_next_state_text() -> Seq<char> {
    "不正な次の状態"@
}

/// The phase that a handshake asks for by this number: 1 is status, 2 is
/// login, and no other number is a request.
pub open spec fn requested_phase(code: i32) -> Option<PacketState> {
    if code == 1 {
        Some(PacketState::Status)
    } else if code == 2 {
        Some(PacketState::Login)
    } else {
        None
    }
}

/// The bytes of a handshake behind the packet id: version, address, port
/// (big-endian), next state.
pub open spec fn handshake_payload(packet: HandshakeView) -> Seq<u8> {
    encode_i32(packet.protocol_version) + encode_string(packet.server_address) + encode_u16(
        packet.server_port,
    ) + encode_i32(packet.next_state.code())
}

/// Reads a handshake from the front of a payload, field by field. The first
/// field that cannot be read decides the error. The next state must be status
/// or login.
pub open spec fn parse_handshake(body: Seq<u8>) -> Result<(HandshakeView, nat), ServerErrorView> {
    let version = decode_i32(body);
    if !(version is Complete) {
        Err(ServerErrorView::Protocol(bad_version_text()))
    } else {
        let at_length = version->len as int;
        let length = decode_i32(body.skip(at_length));
        if !(length is Complete) {
            Err(ServerErrorView::Protocol(bad_address_length_text()))
        } else {
            let at_address = at_length + length->len;
            let declared = value32(length->value) as int;
            if declared < 0 || body.len() - at_address < declared {
                Err(ServerErrorView::Protocol(incomplete_packet_text()))
            } else {
                let at_port = at_address + declared;
                let address = body.subrange(at_address, at_port);
                if !valid_utf8(address) {
                    Err(ServerErrorView::Protocol(bad_address_text()))
                } else if body.len() - at_port < 2 {
                    Err(ServerErrorView::Protocol(incomplete_packet_text()))
                } else {
                    let at_state = at_port + 2;
                    let port = be_value(body.subrange(at_port, at_state));
                    let next = decode_i32(body.skip(at_state));
                    if !(next is Complete) {
                        Err(ServerErrorView::Protocol(bad_next_state_length_text()))
                    } else {
                        match requested_phase(value32(next->value)) {
                            None => Err(ServerErrorView::Protocol(bad_next_state_text())),
                            Some(next_state) => Ok(
                                (
                                    HandshakeView {
                                        protocol_version: value32(version->value),
                                        server_address: decode_utf8(address),
                                        server_port: port as u16,
                                        next_state,
                                    },
                                    (at_state + next->len) as nat,
                                ),
                            ),
                        }
                    }
                }
            }
        }
    }
}

impl Packet for HandshakePacket {
    open spec fn id() -> i32 {
        0x00
    }

    open spec fn payload(&self) -> Result<Seq<u8>, ServerErrorView> {
        if string_fits(self.server_address@) {
            Ok(handshake_payload(self@))
        } else {
            Err(ServerErrorView::VarInt(VarIntErrorKind::ValueTooLarge))
        }
    }

    open spec fn parse(body: Seq<u8>) -> Result<(HandshakeView, nat), ServerErrorView> {
        parse_handshake(body)
    }

    fn packet_id(&self) -> (id: i32) {
        0x00
    }

    fn encode(&self, buf: &mut BytesMut) -> (done: Result<(), ServerError>) {
        let address = self.server_address.as_str().as_bytes();
        if address.len() > i32::MAX as usize {
            return Err(ServerError::VarInt(VarIntError::ValueTooLarge));
        }
        let version = encode_varint(self.protocol_version);
        let length = encode_varint(address.len() as i32);
        let port = be_encode(self.server_port as u64, 2);
        let next_state = encode_varint(self.next_state.to_i32());
        buf.extend_from_slice(version.as_slice());
        buf.extend_from_slice(length.as_slice());
        buf.extend_from_slice(address);
        buf.extend_from_slice(port.as_slice());
        buf.extend_from_slice(next_state.as_slice());
        proof {
            assert(bytes_of(*buf) =~= bytes_of(*old(buf)) + handshake_payload(self@));
        }
        Ok(())
    }

    fn decode(buf: &mut BytesMut) -> (packet: Result<Self, ServerError>) {
        let bytes = contents(buf);
        let ghost body = bytes@;
        let (protocol_version, at_length) = match peek_varint(bytes) {
            Decoded::Value(value, len) => (value, len),
            _ => {
                return Err(
                    ServerError::Protocol("プロトコルバージョンの読み取りに失敗".to_owned()),
                );
            },
        };
        let (declared, length_len) = match peek_varint(
            slice_subrange(bytes, at_length, bytes.len()),
        ) {
            Decoded::Value(value, len) => (value, len),
            _ => {
                return Err(ServerError::Protocol("アドレス長の読み取りに失敗".to_owned()));
            },
        };
        let at_address: usize = at_length + length_len;
        if declared < 0 || bytes.len() - at_address < declared as usize {
            return Err(ServerError::Protocol("パケットデータが不完全".to_owned()));
        }
        let at_port: usize = at_address + declared as usize;
        let address = slice_subrange(bytes, at_address, at_port);
        let server_address = match String::from_utf8(slice_to_vec(address)) {
            Ok(text) => text,
            Err(_) => {
                return Err(ServerError::Protocol("不正なUTF-8シーケンス".to_owned()));
            },
        };
        proof {
            decode_utf8_encode_utf8(address@);
            encode_utf8_decode_utf8(server_address@);
        }
        if bytes.len() - at_port < 2 {
            return Err(ServerError::Protocol("パケットデータが不完全".to_owned()));
        }
        let at_state: usize = at_port + 2;
        let port = be_decode(slice_subrange(bytes, at_port, at_state));
        proof {
            crate::fixed::lemma_be_value_bound(body.subrange(at_port as int, at_state as int));
            reveal_with_fuel(crate::fixed::radix, 3);
        }
        let (next, next_len) = match peek_varint(slice_subrange(bytes, at_state, bytes.len())) {
            Decoded::Value(value, len) => (value, len),
            _ => {
                return Err(ServerError::Protocol("次の状態の読み取りに失敗".to_owned()));
            },
        };
        let next_state = match PacketState::from_i32(next) {
            Some(PacketState::Status) => PacketState::Status,
            Some(PacketState::Login) => PacketState::Login,
            _ => {
                return Err(ServerError::Protocol("不正な次の状態".to_owned()));
            },
        };
        consume(buf, at_state + next_len);
        Ok(HandshakePacket { protocol_version, server_address, server_port: port as u16, next_state })
    }
}

/// Reading what was written: a handshake that asks for status or login, and
/// whose address fits, comes back as it was, and the reader takes exactly the
/// bytes that the writer gave. A handshake that asks for another phase is
/// refused.
pub proof fn lemma_handshake_round_trip(packet: HandshakeView, rest: Seq<u8>)
    requires
        string_fits(packet.server_address),
    ensures
        parse_handshake(handshake_payload(packet) + rest) == if packet.next_state
            == PacketState::Status || packet.next_state == PacketState::Login {
            Ok::<(HandshakeView, nat), ServerErrorView>(
                (packet, handshake_payload(packet).len()),
            )
        } else {
            Err::<(HandshakeView, nat), ServerErrorView>(
                ServerErrorView::Protocol(bad_next_state_text()),
            )
        },
{
    let version = encode_i32(packet.protocol_version);
    let text = vstd::utf8::encode_utf8(packet.server_address);
    let length = encode_i32(text.len() as i32);
    let port = encode_u16(packet.server_port);
    let state = encode_i32(packet.next_state.code());
    let body = handshake_payload(packet) + rest;
    let at_length = version.len() as int;
    let at_address = at_length + length.len();
    let at_port = at_address + text.len();
    let at_state = at_port + 2;
    lemma_be_bytes_len(packet.server_port as nat, 2);
    assert(body =~= version + (length + text + port + state + rest));
    crate::varint::model::lemma_varint_round_trip(
        packet.protocol_version,
        length + text + port + state + rest,
    );
    assert(body.skip(at_length) =~= length + (text + port + state + rest));
    crate::varint::model::lemma_varint_round_trip(text.len() as i32, text + port + state + rest);
    assert(body.subrange(at_address, at_port) =~= text);
    vstd::utf8::encode_utf8_valid_utf8(packet.server_address);
    encode_utf8_decode_utf8(packet.server_address);
    assert(body.subrange(at_port, at_state) =~= port);
    reveal_with_fuel(crate::fixed::radix, 3);
    crate::fixed::lemma_be_round_trip(packet.server_port as nat, 2);
    assert(body.skip(at_state) =~= state + rest);
    crate::varint::model::lemma_varint_round_trip(packet.next_state.code(), rest);
}

} // verus!
