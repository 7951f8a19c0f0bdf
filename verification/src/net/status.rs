//! The status phase: a description of the server as JSON, and the ping that
//! the server echoes.

use crate::buffer::{consume, contents};
use crate::fixed::{be_decode, be_encode, be_value, encode_be_i64, lemma_be_value_bound, radix};
use crate::net::error::{ServerError, ServerErrorView};
use crate::net::protocol::{incomplete_packet_text, Packet};
use crate::text::{decimal, format_decimal};
use crate::varint::model::{encode_string, string_fits, value64};
use crate::varint::utils::write_string;
use crate::varint::VarIntErrorKind;
use bytes::BytesMut;
use vstd::prelude::*;
use vstd::slice::slice_subrange;

verus! {

/// What the server tells of itself in the status phase.
#[derive(Debug, Clone)]
pub struct StatusInfo {
    /// The name of the game version.
    pub version_name: String,
    /// The number of the protocol version.
    pub protocol: i32,
    /// The most players let in.
    pub max_players: i32,
    /// The players that are in.
    pub online_players: i32,
    /// A line that describes the server.
    pub description: String,
}

/// A `StatusInfo` as contracts see it.
pub struct StatusInfoView {
    pub version_name: Seq<char>,
    pub protocol: i32,
    pub max_players: i32,
    pub online_players: i32,
    pub description: Seq<char>,
}

impl View for StatusInfo {
    type V = StatusInfoView;

    open spec fn view(&self) -> StatusInfoView {
        StatusInfoView {
            version_name: self.version_name@,
            protocol: self.protocol,
            max_players: self.max_players,
            online_players: self.online_players,
            description: self.description@,
        }
    }
}

impl Default for StatusInfo {
    fn default() -> (info: Self)
        ensures
            info@ == (StatusInfoView {
                version_name: "1.20.1"@,
                protocol: 763,
                max_players: 20,
                online_players: 0,
                description: "5io Test Server"@,
            }),
    {
        StatusInfo {
            version_name: "1.20.1".to_owned(),
            protocol: 763,
            max_players: 20,
            online_players: 0,
            description: "5io Test Server".to_owned(),
        }
    }
}

/// A text as a JSON string: in double quotes, with the characters escaped
/// that JSON asks for. This is what `serde_json` writes for a string value.
pub uninterp spec fn json_string(text: Seq<char>) -> Seq<char>;

/// `Display` of `serde_json::Value::String`: the text as a JSON string.
#[verifier::external_body]
fn render_json_string(text: &str) -> (json: String)
    ensures
        json@ == json_string(text@),
{
    serde_json::Value::String(text.to_owned()).to_string()
}

/// The status object, given its two texts already as JSON strings: the
/// members `description.text`, `players.max`, `players.online`,
/// `version.name` and `version.protocol`, in compact form.
pub open spec fn status_object(
    description_json: Seq<char>,
    max_players: i32,
    online_players: i32,
    version_name_json: Seq<char>,
    protocol: i32,
) -> Seq<char> {
    "{\"description\":{\"text\":"@ + description_json + "},\"players\":{\"max\":"@ + decimal(
        max_players as int,
    ) + ",\"online\":"@ + decimal(online_players as int) + "},\"version\":{\"name\":"@
        + version_name_json + ",\"protocol\":"@ + decimal(protocol as int) + "}}"@
}

/// The status of a server as JSON text.
pub open spec fn status_json(info: StatusInfoView) -> Seq<char> {
    status_object(
        json_string(info.description),
        info.max_players,
        info.online_players,
        json_string(info.version_name),
        info.protocol,
    )
}

/// Puts the status object together from its two texts, already as JSON
/// strings, and its three numbers.
pub fn assemble_status(
    description_json: &str,
    max_players: i32,
    online_players: i32,
    version_name_json: &str,
    protocol: i32,
) -> (json: String)
    ensures
        json@ == status_object(
            description_json@,
            max_players,
            online_players,
            version_name_json@,
            protocol,
        ),
{
    let json = "{\"description\":{\"text\":".to_owned();
    let json = json.concat(description_json);
    let json = json.concat("},\"players\":{\"max\":");
    let json = json.concat(format_decimal(max_players as i64).as_str());
    let json = json.concat(",\"online\":");
    let json = json.concat(format_decimal(online_players as i64).as_str());
    let json = json.concat("},\"version\":{\"name\":");
    let json = json.concat(version_name_json);
    let json = json.concat(",\"protocol\":");
    let json = json.concat(format_decimal(protocol as i64).as_str());
    json.concat("}}")
}

impl StatusInfo {
    /// The status as JSON text.
    pub fn to_json(&self) -> (json: String)
        ensures
            json@ == status_json(self@),
    {
        let description = render_json_string(self.description.as_str());
        let version_name = render_json_string(self.version_name.as_str());
        assemble_status(
            description.as_str(),
            self.max_players,
            self.online_players,
            version_name.as_str(),
            self.protocol,
        )
    }
}

/// The answer to a status request: the server's status as JSON text. The
/// server only ever sends it.
#[derive(Debug, Clone)]
pub struct StatusResponse {
    pub json: String,
}

/// A `StatusResponse` as contracts see it.
pub struct StatusResponseView {
    pub json: Seq<char>,
}

impl View for StatusResponse {
    type V = StatusResponseView;

    open spec fn view(&self) -> StatusResponseView {
        StatusResponseView { json: self.json@ }
    }
}

/// The error text for an attempt to read a status response.
pub open spec fn send_only_text() -> Seq<char> {
    "StatusResponse is send-only"@
}

impl Packet for StatusResponse {
    open spec fn id() -> i32 {
        0x00
    }

    open spec fn payload(&self) -> Result<Seq<u8>, ServerErrorView> {
        if string_fits(self.json@) {
            Ok(encode_string(self.json@))
        } else {
            Err(ServerErrorView::VarInt(VarIntErrorKind::ValueTooLarge))
        }
    }

    open spec fn parse(body: Seq<u8>) -> Result<(StatusResponseView, nat), ServerErrorView> {
        Err(ServerErrorView::Protocol(send_only_text()))
    }

    fn packet_id(&self) -> (id: i32) {
        0x00
    }

    fn encode(&self, buf: &mut BytesMut) -> (done: Result<(), ServerError>) {
        match write_string(buf, self.json.as_str()) {
            Ok(()) => Ok(()),
            Err(error) => Err(ServerError::VarInt(error)),
        }
    }

    fn decode(_buf: &mut BytesMut) -> (packet: Result<Self, ServerError>) {
        Err(ServerError::Protocol("StatusResponse is send-only".to_owned()))
    }
}

/// A ping, and the pong that echoes it: one 64-bit number, big-endian.
#[derive(Debug, Clone, Copy, PartialEq, Eq, Structural)]
pub struct Ping {
    pub payload: i64,
}

impl View for Ping {
    type V = Ping;

    open spec fn view(&self) -> Ping {
        *self
    }
}

/// Reads a ping from the front of a payload: its first eight bytes.
pub open spec fn parse_ping(body: Seq<u8>) -> Result<(Ping, nat), ServerErrorView> {
    if body.len() < 8 {
        Err(ServerErrorView::Protocol(incomplete_packet_text()))
    } else {
        Ok((Ping { payload: value64(be_value(body.take(8))) }, 8))
    }
}

impl Packet for Ping {
    open spec fn id() -> i32 {
        0x01
    }

    open spec fn payload(&self) -> Result<Seq<u8>, ServerErrorView> {
        Ok(encode_be_i64(self.payload))
    }

    open spec fn parse(body: Seq<u8>) -> Result<(Ping, nat), ServerErrorView> {
        parse_ping(body)
    }

    fn packet_id(&self) -> (id: i32) {
        0x01
    }

    fn encode(&self, buf: &mut BytesMut) -> (done: Result<(), ServerError>) {
        let pattern: u64 = if self.payload >= 0 {
            self.payload as u64
        } else {
            (self.payload as i128 + 0x1_0000_0000_0000_0000) as u64
        };
        let bytes = be_encode(pattern, 8);
        buf.extend_from_slice(bytes.as_slice());
        Ok(())
    }

    fn decode(buf: &mut BytesMut) -> (packet: Result<Self, ServerError>) {
        let bytes = contents(buf);
        if bytes.len() < 8 {
            return Err(ServerError::Protocol("パケットデータが不完全".to_owned()));
        }
        let pattern = be_decode(slice_subrange(bytes, 0, 8));
        let payload: i64 = if pattern < 0x8000_0000_0000_0000 {
            pattern as i64
        } else {
            (pattern as i128 - 0x1_0000_0000_0000_0000) as i64
        };
        proof {
            lemma_be_value_bound(bytes@.take(8));
            reveal_with_fuel(radix, 9);
        }
        consume(buf, 8);
        Ok(Ping { payload })
    }
}

/// The pong is the ping, byte for byte: writing the ping that was read from
/// a payload gives the first eight bytes of that payload.
pub proof fn lemma_pong_echoes_ping(body: Seq<u8>)
    requires
        body.len() >= 8,
    ensures
        parse_ping(body) is Ok,
        encode_be_i64(parse_ping(body)->Ok_0.0.payload) == body.take(8),
{
    let bytes = body.take(8);
    lemma_be_value_bound(bytes);
    reveal_with_fuel(radix, 9);
    crate::fixed::lemma_be_bytes_of_value(bytes);
}

/// A pong carries the payload of the ping that it answers.
pub proof fn lemma_ping_round_trip(ping: Ping, rest: Seq<u8>)
    ensures
        parse_ping(encode_be_i64(ping.payload) + rest) == Ok::<(Ping, nat), ServerErrorView>(
            (ping, 8),
        ),
{
    crate::fixed::lemma_be_i64_round_trip(ping.payload);
    assert((encode_be_i64(ping.payload) + rest).take(8) =~= encode_be_i64(ping.payload));
}

} // verus!
