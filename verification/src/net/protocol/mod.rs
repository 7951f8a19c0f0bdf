//! Packets: the phases they belong to, what every packet type offers, and the
//! errors of reading and writing them.

pub mod codec;
pub mod handshake;
pub mod login;

use crate::buffer::bytes_of;
use crate::net::error::{ServerError, ServerErrorView};
use crate::text::{decimal, format_decimal};
use bytes::BytesMut;
use vstd::prelude::*;
use vstd::std_specs::convert::FromSpecImpl;

verus! {

/// The phase that a connection is in. A connection only ever moves forward:
/// from `Handshake` to `Status` or to `Login`, and from `Login` to `Play`.
#[derive(Debug, Clone, Copy, PartialEq, Eq, Structural)]
pub enum PacketState {
    Handshake,
    Status,
    Login,
    Play,
}

impl PacketState {
    /// The number that stands for the phase on the wire.
    pub open spec fn code(self) -> i32 {
        match self {
            PacketState::Handshake => 0,
            PacketState::Status => 1,
            PacketState::Login => 2,
            PacketState::Play => 3,
        }
    }

    /// The phase that a number stands for, if any.
    pub open spec fn of_code(value: i32) -> Option<PacketState> {
        if value == 0 {
            Some(PacketState::Handshake)
        } else if value == 1 {
            Some(PacketState::Status)
        } else if value == 2 {
            Some(PacketState::Login)
        } else if value == 3 {
            Some(PacketState::Play)
        } else {
            None
        }
    }

    /// The phase that `value` stands for: 0 to 3, nothing else.
    pub fn from_i32(value: i32) -> (state: Option<Self>)
        ensures
            state == Self::of_code(value),
    {
        match value {
            0 => Some(PacketState::Handshake),
            1 => Some(PacketState::Status),
            2 => Some(PacketState::Login),
            3 => Some(PacketState::Play),
            _ => None,
        }
    }

    /// The number that stands for the phase on the wire.
    pub fn to_i32(self) -> (value: i32)
        ensures
            value == self.code(),
            Self::of_code(value) == Some(self),
    {
        match self {
            PacketState::Handshake => 0,
            PacketState::Status => 1,
            PacketState::Login => 2,
            PacketState::Play => 3,
        }
    }
}

/// A packet type: its id, how its payload is written and how it is read.
///
/// `payload` and `parse` say what the two directions do. A type that travels
/// in one direction only answers the other with the error it reports.
pub trait Packet: Send + Sized + View {
    /// The id that announces the packet in a frame.
    spec fn id() -> i32;

    /// The bytes behind the id, or the error that refuses to send the packet.
    spec fn payload(&self) -> Result<Seq<u8>, ServerErrorView>;

    /// The packet at the front of a payload and the number of bytes it takes,
    /// or the error that refuses the payload.
    spec fn parse(body: Seq<u8>) -> Result<(Self::V, nat), ServerErrorView>;

    /// The id that announces the packet in a frame.
    fn packet_id(&self) -> (id: i32)
        ensures
            id == Self::id(),
    ;

    /// Appends the payload to `buf`, or reports the error and writes nothing.
    fn encode(&self, buf: &mut BytesMut) -> (done: Result<(), ServerError>)
        ensures
            match self.payload() {
                Ok(bytes) => done is Ok && bytes_of(*final(buf)) == bytes_of(*old(buf)) + bytes,
                Err(e) => done matches Err(error) && error@ == e && bytes_of(*final(buf))
                    == bytes_of(*old(buf)),
            },
    ;

    /// Takes the packet from the front of `buf`, or reports the error and
    /// takes nothing.
    fn decode(buf: &mut BytesMut) -> (packet: Result<Self, ServerError>)
        ensures
            match Self::parse(bytes_of(*old(buf))) {
                Ok((value, len)) => packet matches Ok(p) && p@ == value && bytes_of(*final(buf))
                    == bytes_of(*old(buf)).skip(len as int),
                Err(e) => packet matches Err(error) && error@ == e && bytes_of(*final(buf))
                    == bytes_of(*old(buf)),
            },
    ;
}

/// What went wrong with one packet.
#[derive(Debug)]
pub enum PacketError {
    /// No packet of the current phase has this id.
    InvalidPacketId(i32),
    /// The packet's bytes end before the packet does.
    IncompletePacket,
    /// The packet could not be read.
    DecodeError(String),
    /// The packet could not be written.
    EncodeError(String),
}

/// A `PacketError` as contracts see it: texts by their characters.
pub enum PacketErrorView {
    InvalidPacketId(i32),
    IncompletePacket,
    DecodeError(Seq<char>),
    EncodeError(Seq<char>),
}

impl View for PacketError {
    type V = PacketErrorView;

    open spec fn view(&self) -> PacketErrorView {
        match self {
            PacketError::InvalidPacketId(id) => PacketErrorView::InvalidPacketId(*id),
            PacketError::IncompletePacket => PacketErrorView::IncompletePacket,
            PacketError::DecodeError(text) => PacketErrorView::DecodeError(text@),
            PacketError::EncodeError(text) => PacketErrorView::EncodeError(text@),
        }
    }
}

/// The text that reports a packet whose bytes end too early.
pub open spec fn incomplete_packet_text() -> Seq<char> {
    "パケットデータが不完全"@
}

/// The text of an error.
pub open spec fn packet_error_text(error: PacketErrorView) -> Seq<char> {
    match error {
        PacketErrorView::InvalidPacketId(id) => "無効なパケットID: "@ + decimal(id as int),
        PacketErrorView::IncompletePacket => incomplete_packet_text(),
        PacketErrorView::DecodeError(text) => "デコードエラー: "@ + text,
        PacketErrorView::EncodeError(text) => "エンコードエラー: "@ + text,
    }
}

impl PacketError {
    /// The error as a line of text.
    pub fn message(&self) -> (line: String)
        ensures
            line@ == packet_error_text(self@),
    {
        match self {
            PacketError::InvalidPacketId(id) => "無効なパケットID: ".to_owned().concat(
                format_decimal(*id as i64).as_str(),
            ),
            PacketError::IncompletePacket => "パケットデータが不完全".to_owned(),
            PacketError::DecodeError(text) => "デコードエラー: ".to_owned().concat(text.as_str()),
            PacketError::EncodeError(text) => "エンコードエラー: ".to_owned().concat(text.as_str()),
        }
    }
}

impl From<PacketError> for ServerError {
    /// A packet error ends the connection as a protocol error with the same
    /// text.
    fn from(error: PacketError) -> (e: Self)
        ensures
            e@ == ServerErrorView::Protocol(packet_error_text(error@)),
    {
        ServerError::Protocol(error.message())
    }
}

impl FromSpecImpl<PacketError> for ServerError {
    /// The result is described by its view, in the contract of `from`.
    open spec fn obeys_from_spec() -> bool {
        false
    }

    open spec fn from_spec(error: PacketError) -> Self {
        arbitrary()
    }
}

} // verus!
