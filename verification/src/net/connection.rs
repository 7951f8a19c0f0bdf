//! The state machine of one connection.
//!
//! A connection starts in the handshake phase and moves forward only: to the
//! status phase, where it answers one status request and one ping, or to the
//! login phase and from there to play. The machine does no input or output.
//! Its owner feeds it the bytes that arrived and asks it what to do next: read
//! more, send these bytes, or close. Each connection has a context of its own,
//! so that whatever one peer sends can end no connection but its own.

use crate::buffer::bytes_of;
use crate::net::error::{ServerError, ServerErrorView};
use crate::net::login::encryption::key::{
    pkcs1v15_plain, public_key_der_of, random_bytes, EncryptionKeyPair, VERIFY_TOKEN_LENGTH,
};
use rsa::RsaPrivateKey;
use crate::net::login::encryption::request::{
    encryption_request_payload, request_fits, EncryptionRequest, EncryptionRequestView,
};
use crate::net::login::encryption::response::{
    assemble, bytes_view, parse_encrypted, EncryptionResponse,
};
use crate::net::login::start::{bad_username_text, LoginStart};
use crate::net::login::success::{
    is_random_id, login_success_payload, random_session_id, LoginSuccess, LoginSuccessView,
};
use crate::net::protocol::codec::{
    body_fits, frame, frame_body, invalid_length_text, invalid_packet_id_text,
    packet_too_large_text, scan_frame, FrameScan, PacketCodec,
};
use crate::net::protocol::handshake::{parse_handshake, HandshakePacket};
use crate::net::protocol::{
    packet_error_text, Packet, PacketError, PacketErrorView, PacketState,
};
use crate::net::status::{parse_ping, status_json, Ping, StatusInfo, StatusResponse};
use crate::fixed::encode_be_i64;
use crate::varint::model::{decode_i32, decode_string, encode_string, string_fits, value32, Parsed};
use crate::varint::utils::read_varint;
use crate::varint::VarIntErrorKind;
use bytes::BytesMut;
use vstd::prelude::*;

verus! {

/// How far a login has come.
#[derive(Debug, Clone, Copy, PartialEq, Eq, Structural)]
pub enum LoginPhase {
    /// The client has not yet named its player, or encryption is off.
    Started,
    /// The encryption request went out; the response is awaited.
    AwaitingEncryptionResponse,
    /// The login is done.
    Authenticated,
}

/// What every connection of one server shares and none changes: the frame
/// codec, the status text, and the key pair where encryption is on.
pub struct ServerContext {
    codec: PacketCodec,
    status_json: String,
    keys: Option<EncryptionKeyPair>,
}

/// A `ServerContext` as contracts see it.
pub struct ServerView {
    /// The longest frame body let through.
    pub max_size: nat,
    /// The status of the server as JSON text.
    pub status_json: Seq<char>,
    /// The public key in DER form where encryption is on, nothing where it
    /// is off.
    pub public_key: Option<Seq<u8>>,
    /// The private key where encryption is on, nothing where it is off.
    pub private_key: Option<RsaPrivateKey>,
}

impl View for ServerContext {
    type V = ServerView;

    closed spec fn view(&self) -> ServerView {
        ServerView {
            max_size: self.codec.max_size(),
            status_json: self.status_json@,
            public_key: public_der_of(self.keys),
            private_key: private_key_of(self.keys),
        }
    }
}

/// The DER form of the public key of an optional key pair.
pub open spec fn public_der_of(keys: Option<EncryptionKeyPair>) -> Option<Seq<u8>> {
    match keys {
        Some(pair) => Some(pair.public_der()),
        None => None,
    }
}

/// Whether a server offers the public half of the key that it decrypts with,
/// or has neither key.
pub open spec fn keys_match(server: ServerView) -> bool {
    match server.private_key {
        Some(key) => public_key_der_of(key) == server.public_key,
        None => server.public_key is None,
    }
}

/// The private key of an optional key pair.
pub open spec fn private_key_of(keys: Option<EncryptionKeyPair>) -> Option<RsaPrivateKey> {
    match keys {
        Some(pair) => Some(pair.private()),
        None => None,
    }
}

impl ServerContext {
    /// The shared part of a server. With a key pair, every login negotiates
    /// encryption; without one, none does.
    pub fn new(codec: PacketCodec, status: &StatusInfo, keys: Option<EncryptionKeyPair>) -> (server:
        Self)
        ensures
            server@ == (ServerView {
                max_size: codec.max_size(),
                status_json: status_json(status@),
                public_key: public_der_of(keys),
                private_key: private_key_of(keys),
            }),
            keys_match(server@),
    {
        proof {
            match &keys {
                Some(pair) => {
                    use_type_invariant(pair);
                },
                None => {},
            }
        }
        ServerContext { codec, status_json: status.to_json(), keys }
    }

    /// The frame codec.
    pub fn codec(&self) -> (codec: &PacketCodec)
        ensures
            codec.max_size() == self@.max_size,
    {
        &self.codec
    }

    /// The status of the server as JSON text.
    pub fn status_json(&self) -> (json: &str)
        ensures
            json@ == self@.status_json,
    {
        self.status_json.as_str()
    }

    /// The key pair, where encryption is on.
    pub fn keys(&self) -> (keys: Option<&EncryptionKeyPair>)
        ensures
            match keys {
                Some(pair) => self@.public_key == Some(pair.public_der()) && self@.private_key
                    == Some(pair.private()),
                None => self@.public_key is None && self@.private_key is None,
            },
    {
        self.keys.as_ref()
    }
}

/// What belongs to one connection and to nobody else.
pub struct ConnectionContext {
    state: PacketState,
    read_buf: BytesMut,
    status_sent: bool,
    login: LoginPhase,
    username: String,
    verify_token: Vec<u8>,
    session_id: u128,
    shared_secret: Option<Vec<u8>>,
    closed: bool,
}

/// A `ConnectionContext` as contracts see it.
pub struct ConnectionView {
    /// The phase.
    pub state: PacketState,
    /// The bytes that arrived and are not yet part of a whole frame.
    pub pending: Seq<u8>,
    /// In the status phase: whether the status response went out.
    pub status_sent: bool,
    /// In the login phase: how far the login has come.
    pub login: LoginPhase,
    /// The name that the client gave; empty before it did.
    pub username: Seq<char>,
    /// The verify token of this connection.
    pub verify_token: Seq<u8>,
    /// The session identifier that this connection hands out.
    pub session_id: u128,
    /// The key of the encrypted transport, once it is agreed.
    pub shared_secret: Option<Seq<u8>>,
    /// Whether the connection is over.
    pub closed: bool,
}

impl View for ConnectionContext {
    type V = ConnectionView;

    closed spec fn view(&self) -> ConnectionView {
        ConnectionView {
            state: self.state,
            pending: bytes_of(self.read_buf),
            status_sent: self.status_sent,
            login: self.login,
            username: self.username@,
            verify_token: self.verify_token@,
            session_id: self.session_id,
            shared_secret: bytes_view(self.shared_secret),
            closed: self.closed,
        }
    }
}

/// What the owner of a connection does next.
#[derive(Debug)]
pub enum Action {
    /// Read from the peer, feed what came, and ask again.
    Read,
    /// Nothing to send; ask again.
    Continue,
    /// Send these bytes and ask again.
    Send(BytesMut),
    /// Send these bytes, if any, and close: the exchange is complete.
    Close(BytesMut),
    /// Close and report the error: the peer broke the protocol, or an answer
    /// could not be written.
    Abort(ServerError),
}

/// An `Action` as contracts see it.
pub enum ActionView {
    Read,
    Continue,
    Send(Seq<u8>),
    Close(Seq<u8>),
    Abort(ServerErrorView),
}

impl View for Action {
    type V = ActionView;

    open spec fn view(&self) -> ActionView {
        match self {
            Action::Read => ActionView::Read,
            Action::Continue => ActionView::Continue,
            Action::Send(bytes) => ActionView::Send(bytes_of(*bytes)),
            Action::Close(bytes) => ActionView::Close(bytes_of(*bytes)),
            Action::Abort(error) => ActionView::Abort(error@),
        }
    }
}

/// The state of a connection that has just been accepted.
pub open spec fn fresh(session_id: u128, verify_token: Seq<u8>) -> ConnectionView {
    ConnectionView {
        state: PacketState::Handshake,
        pending: Seq::empty(),
        status_sent: false,
        login: LoginPhase::Started,
        username: Seq::empty(),
        verify_token,
        session_id,
        shared_secret: None,
        closed: false,
    }
}

/// The error text for a first packet that is no handshake.
pub open spec fn invalid_initial_packet_text() -> Seq<char> {
    "Invalid initial packet ID"@
}

/// The error text for a verify token that came back changed.
pub open spec fn token_mismatch_text() -> Seq<char> {
    "Verify token mismatch"@
}

/// The error text for a peer that stayed silent too long.
pub open spec fn read_timeout_text() -> Seq<char> {
    "Read timed out"@
}

/// The connection ends with an error.
pub open spec fn abort(pre: ConnectionView, error: ServerErrorView) -> (
    ConnectionView,
    ActionView,
) {
    (ConnectionView { closed: true, ..pre }, ActionView::Abort(error))
}

/// The connection ends with a protocol error of the given text.
pub open spec fn refuse(pre: ConnectionView, text: Seq<char>) -> (ConnectionView, ActionView) {
    abort(pre, ServerErrorView::Protocol(text))
}

/// A packet goes out in a frame; with `last`, the connection then ends. A
/// packet that cannot be written, or whose frame would be too long, ends the
/// connection with that error.
pub open spec fn deliver(
    pre: ConnectionView,
    max_size: nat,
    id: i32,
    payload: Result<Seq<u8>, ServerErrorView>,
    last: bool,
) -> (ConnectionView, ActionView) {
    match payload {
        Err(error) => abort(pre, error),
        Ok(bytes) => {
            let body = frame_body(id, bytes);
            if !body_fits(body, max_size) {
                refuse(pre, packet_too_large_text())
            } else if last {
                (ConnectionView { closed: true, ..pre }, ActionView::Close(frame(body)))
            } else {
                (pre, ActionView::Send(frame(body)))
            }
        },
    }
}

/// The payload of a text packet, or the error of a text that does not fit.
pub open spec fn text_payload(text: Seq<char>) -> Result<Seq<u8>, ServerErrorView> {
    if string_fits(text) {
        Ok(encode_string(text))
    } else {
        Err(ServerErrorView::VarInt(VarIntErrorKind::ValueTooLarge))
    }
}

/// A connection that is over takes no packet: there is nothing to do but to
/// close.
pub open spec fn stay_closed(pre: ConnectionView) -> (ConnectionView, ActionView) {
    (pre, ActionView::Close(Seq::empty()))
}

/// A packet that the connection's phase does not know ends the connection.
pub open spec fn out_of_phase(pre: ConnectionView, id: i32) -> (ConnectionView, ActionView) {
    refuse(pre, packet_error_text(PacketErrorView::InvalidPacketId(id)))
}

/// The handshake phase: the one packet is a handshake that asks for the
/// status phase or for the login phase.
pub open spec fn on_handshake(pre: ConnectionView, id: i32, payload: Seq<u8>) -> (
    ConnectionView,
    ActionView,
) {
    if pre.closed {
        stay_closed(pre)
    } else if pre.state != PacketState::Handshake {
        out_of_phase(pre, id)
    } else if id != 0 {
        refuse(pre, invalid_initial_packet_text())
    } else {
        match parse_handshake(payload) {
            Err(error) => abort(pre, error),
            Ok((packet, _)) => (
                ConnectionView { state: packet.next_state, ..pre },
                ActionView::Continue,
            ),
        }
    }
}

/// The ping of the status phase: the pong echoes the payload, and the
/// connection ends.
pub open spec fn on_ping(pre: ConnectionView, server: ServerView, id: i32, payload: Seq<u8>) -> (
    ConnectionView,
    ActionView,
) {
    if pre.closed {
        stay_closed(pre)
    } else if pre.state != PacketState::Status || id != 1 {
        out_of_phase(pre, id)
    } else {
        match parse_ping(payload) {
            Err(error) => abort(pre, error),
            Ok((ping, _)) => deliver(pre, server.max_size, 1, Ok(encode_be_i64(ping.payload)), true),
        }
    }
}

/// The status phase: the first status request is answered with the status
/// text; a ping is answered with a pong, which ends the connection; anything
/// else is refused.
pub open spec fn on_status(pre: ConnectionView, server: ServerView, id: i32, payload: Seq<u8>) -> (
    ConnectionView,
    ActionView,
) {
    if pre.closed {
        stay_closed(pre)
    } else if pre.state != PacketState::Status {
        out_of_phase(pre, id)
    } else if id == 0 && !pre.status_sent {
        deliver(
            ConnectionView { status_sent: true, ..pre },
            server.max_size,
            0,
            text_payload(server.status_json),
            false,
        )
    } else {
        on_ping(pre, server, id, payload)
    }
}

/// The end of a login: the connection reaches the play phase, the login
/// success goes out, and the exchange is complete.
pub open spec fn finish_login(pre: ConnectionView, max_size: nat) -> (ConnectionView, ActionView) {
    let done = ConnectionView {
        state: PacketState::Play,
        login: LoginPhase::Authenticated,
        ..pre
    };
    let packet = LoginSuccessView { uuid: pre.session_id, username: pre.username };
    let payload = if string_fits(pre.username) {
        Ok(login_success_payload(packet))
    } else {
        Err(ServerErrorView::VarInt(VarIntErrorKind::ValueTooLarge))
    };
    deliver(done, max_size, 2, payload, true)
}

/// What two decryptions mean for a login that awaits them: both must have
/// succeeded and the token must be the one that was sent; then the secret
/// becomes the key of the transport and the login finishes.
pub open spec fn on_decrypted(
    pre: ConnectionView,
    max_size: nat,
    secret: Option<Seq<u8>>,
    token: Option<Seq<u8>>,
) -> (ConnectionView, ActionView) {
    if pre.closed {
        stay_closed(pre)
    } else if pre.state != PacketState::Login || pre.login
        != LoginPhase::AwaitingEncryptionResponse {
        out_of_phase(pre, 1)
    } else {
        match assemble(secret, token) {
            Err(error) => refuse(pre, packet_error_text(error)),
            Ok(response) => if response.verify_token == pre.verify_token {
                finish_login(
                    ConnectionView { shared_secret: Some(response.shared_secret), ..pre },
                    max_size,
                )
            } else {
                refuse(pre, token_mismatch_text())
            },
        }
    }
}

/// The encryption request of a server with this public key, for a connection
/// with this verify token.
pub open spec fn request_payload(public_key: Seq<u8>, verify_token: Seq<u8>) -> Result<
    Seq<u8>,
    ServerErrorView,
> {
    let packet = EncryptionRequestView { server_id: Seq::empty(), public_key, verify_token };
    if request_fits(packet) {
        Ok(encryption_request_payload(packet))
    } else {
        Err(ServerErrorView::VarInt(VarIntErrorKind::ValueTooLarge))
    }
}

/// The login phase. A login start names the player; where encryption is on,
/// the encryption request goes out and the response is awaited, else the
/// login finishes at once. The two fields of the awaited response are
/// decrypted with the server's private key, and `on_decrypted` concludes.
pub open spec fn on_login(pre: ConnectionView, server: ServerView, id: i32, payload: Seq<u8>) -> (
    ConnectionView,
    ActionView,
) {
    if pre.closed {
        stay_closed(pre)
    } else if pre.state != PacketState::Login {
        out_of_phase(pre, id)
    } else if pre.login == LoginPhase::Started && id == 0 {
        match decode_string(payload) {
            Parsed::Complete { value, len } => {
                let named = ConnectionView { username: value, ..pre };
                match server.public_key {
                    Some(public_key) => deliver(
                        ConnectionView { login: LoginPhase::AwaitingEncryptionResponse, ..named },
                        server.max_size,
                        1,
                        request_payload(public_key, pre.verify_token),
                        false,
                    ),
                    None => finish_login(named, server.max_size),
                }
            },
            _ => refuse(pre, bad_username_text()),
        }
    } else if pre.login == LoginPhase::AwaitingEncryptionResponse && id == 1
        && server.private_key is Some {
        match parse_encrypted(payload) {
            Err(error) => refuse(pre, packet_error_text(error)),
            Ok((secret, token, _)) => on_decrypted(
                pre,
                server.max_size,
                pkcs1v15_plain(server.private_key->0, secret),
                pkcs1v15_plain(server.private_key->0, token),
            ),
        }
    } else {
        out_of_phase(pre, id)
    }
}

/// What one packet means for a connection: the connection's phase decides
/// who answers it.
pub open spec fn dispatch(pre: ConnectionView, server: ServerView, id: i32, payload: Seq<u8>) -> (
    ConnectionView,
    ActionView,
) {
    match pre.state {
        PacketState::Handshake => on_handshake(pre, id, payload),
        PacketState::Status => on_status(pre, server, id, payload),
        PacketState::Login => on_login(pre, server, id, payload),
        PacketState::Play => if pre.closed {
            stay_closed(pre)
        } else {
            out_of_phase(pre, id)
        },
    }
}

/// What one frame body means for a connection: the packet id in front, then
/// the payload.
pub open spec fn on_frame(pre: ConnectionView, server: ServerView, body: Seq<u8>) -> (
    ConnectionView,
    ActionView,
) {
    match decode_i32(body) {
        Parsed::Complete { value, len } => dispatch(
            pre,
            server,
            value32(value),
            body.skip(len as int),
        ),
        _ => refuse(pre, invalid_packet_id_text()),
    }
}

/// One step of a connection: the next whole frame among the pending bytes is
/// taken and answered. Without a whole frame the connection waits; a frame
/// that cannot be taken ends it.
pub open spec fn step(pre: ConnectionView, server: ServerView) -> (ConnectionView, ActionView) {
    if pre.closed {
        stay_closed(pre)
    } else {
        match scan_frame(pre.pending, server.max_size) {
            FrameScan::Incomplete => (pre, ActionView::Read),
            FrameScan::BadLength => refuse(pre, invalid_length_text()),
            FrameScan::Oversized { prefix } => refuse(
                ConnectionView { pending: pre.pending.skip(prefix as int), ..pre },
                packet_too_large_text(),
            ),
            FrameScan::Frame { body, len } => on_frame(
                ConnectionView { pending: pre.pending.skip(len as int), ..pre },
                server,
                body,
            ),
        }
    }
}

impl ConnectionContext {
    /// The context of a connection that has just been accepted, with a
    /// fresh random verify token and a fresh random session identifier.
    pub fn new() -> (context: Self)
        ensures
            context@ == fresh(context@.session_id, context@.verify_token),
            context@.verify_token.len() == VERIFY_TOKEN_LENGTH,
            is_random_id(context@.session_id),
    {
        Self::with_identity(random_session_id(), random_bytes(VERIFY_TOKEN_LENGTH))
    }

    /// The context of a connection that has just been accepted, with the
    /// given session identifier and verify token.
    pub fn with_identity(session_id: u128, verify_token: Vec<u8>) -> (context: Self)
        ensures
            context@ == fresh(session_id, verify_token@),
    {
        proof {
            reveal_strlit("");
        }
        let username = "".to_owned();
        assert(username@ =~= Seq::<char>::empty());
        ConnectionContext {
            state: PacketState::Handshake,
            read_buf: BytesMut::new(),
            status_sent: false,
            login: LoginPhase::Started,
            username,
            verify_token,
            session_id,
            shared_secret: None,
            closed: false,
        }
    }

    /// Takes in bytes that arrived from the peer.
    pub fn feed(&mut self, data: &[u8])
        ensures
            final(self)@ == (ConnectionView { pending: old(self)@.pending + data@, ..old(self)@ }),
    {
        self.read_buf.extend_from_slice(data);
    }

    /// The phase.
    pub fn state(&self) -> (state: PacketState)
        ensures
            state == self@.state,
    {
        self.state
    }

    /// How far the login has come.
    pub fn login_phase(&self) -> (phase: LoginPhase)
        ensures
            phase == self@.login,
    {
        self.login
    }

    /// Whether the connection is over.
    pub fn is_closed(&self) -> (closed: bool)
        ensures
            closed == self@.closed,
    {
        self.closed
    }

    /// The number of bytes that arrived and are not yet part of a whole
    /// frame.
    pub fn buffered(&self) -> (count: usize)
        ensures
            count == self@.pending.len(),
    {
        self.read_buf.len()
    }

    /// The name that the client gave; empty before it did.
    pub fn username(&self) -> (name: &str)
        ensures
            name@ == self@.username,
    {
        self.username.as_str()
    }

    /// The verify token of this connection.
    pub fn verify_token(&self) -> (token: &[u8])
        ensures
            token@ == self@.verify_token,
    {
        self.verify_token.as_slice()
    }

    /// The session identifier that this connection hands out.
    pub fn session_id(&self) -> (id: u128)
        ensures
            id == self@.session_id,
    {
        self.session_id
    }

    /// The key of the encrypted transport, once it is agreed. From then on
    /// every byte that the machine is fed or hands out is plain text of that
    /// transport: its owner decrypts before feeding and encrypts before
    /// sending, the answer that comes with the agreement included.
    pub fn shared_secret(&self) -> (secret: Option<&[u8]>)
        ensures
            match secret {
                Some(bytes) => self@.shared_secret == Some(bytes@),
                None => self@.shared_secret is None,
            },
    {
        match &self.shared_secret {
            Some(bytes) => Some(bytes.as_slice()),
            None => None,
        }
    }

    /// The peer closed its side: the connection is over, with nothing to
    /// send.
    pub fn peer_closed(&mut self) -> (action: Action)
        ensures
            final(self)@ == (ConnectionView { closed: true, ..old(self)@ }),
            action@ == ActionView::Close(Seq::empty()),
    {
        self.closed = true;
        Action::Close(BytesMut::new())
    }

    /// The transport failed: the connection is over, and the failure is
    /// reported.
    pub fn transport_failed(&mut self, error: std::io::Error) -> (action: Action)
        ensures
            (final(self)@, action@) == abort(old(self)@, ServerErrorView::Io),
    {
        self.abort(ServerError::Io(error))
    }

    /// No bytes came for too long: the connection is abandoned, and with it
    /// whatever part of a frame had arrived.
    pub fn timed_out(&mut self) -> (action: Action)
        ensures
            (final(self)@, action@) == refuse(old(self)@, read_timeout_text()),
    {
        self.refuse("Read timed out")
    }

    /// Stays closed: nothing changes, and there is nothing to send.
    fn stay_closed(&self) -> (action: Action)
        ensures
            (self@, action@) == stay_closed(self@),
    {
        Action::Close(BytesMut::new())
    }

    /// Ends the connection over a packet that its phase does not know.
    fn out_of_phase(&mut self, id: i32) -> (action: Action)
        ensures
            (final(self)@, action@) == out_of_phase(old(self)@, id),
    {
        self.abort(ServerError::from(PacketError::InvalidPacketId(id)))
    }

    /// Ends the connection with an error.
    fn abort(&mut self, error: ServerError) -> (action: Action)
        ensures
            (final(self)@, action@) == abort(old(self)@, error@),
    {
        self.closed = true;
        Action::Abort(error)
    }

    /// Ends the connection with a protocol error of the given text.
    fn refuse(&mut self, text: &str) -> (action: Action)
        ensures
            (final(self)@, action@) == refuse(old(self)@, text@),
    {
        self.abort(ServerError::Protocol(text.to_owned()))
    }

    /// Sends a packet in a frame; with `last`, the connection then ends.
    fn deliver<P: Packet>(&mut self, codec: &PacketCodec, packet: &P, last: bool) -> (action: Action)
        ensures
            (final(self)@, action@) == deliver(
                old(self)@,
                codec.max_size(),
                P::id(),
                packet.payload(),
                last,
            ),
    {
        let mut out = BytesMut::new();
        match codec.encode_packet(packet, &mut out) {
            Ok(()) => {
                assert(bytes_of(out) =~= frame(frame_body(P::id(), packet.payload()->Ok_0)));
                if last {
                    self.closed = true;
                    Action::Close(out)
                } else {
                    Action::Send(out)
                }
            },
            Err(error) => self.abort(error),
        }
    }

    /// Finishes the login: play phase, login success, end of the exchange.
    fn finish_login(&mut self, codec: &PacketCodec) -> (action: Action)
        ensures
            (final(self)@, action@) == finish_login(old(self)@, codec.max_size()),
    {
        self.state = PacketState::Play;
        self.login = LoginPhase::Authenticated;
        let packet = LoginSuccess { uuid: self.session_id, username: self.username.clone() };
        self.deliver(codec, &packet, true)
    }
}

/// The handshake phase: takes the handshake from `payload` and moves the
/// connection to the phase that it asks for.
pub fn handle_handshake(context: &mut ConnectionContext, id: i32, payload: BytesMut) -> (action:
    Action)
    ensures
        (final(context)@, action@) == on_handshake(old(context)@, id, bytes_of(payload)),
{
    if context.closed {
        return context.stay_closed();
    }
    match context.state {
        PacketState::Handshake => {},
        _ => {
            return context.out_of_phase(id);
        },
    }
    if id != 0 {
        return context.refuse("Invalid initial packet ID");
    }
    let mut payload = payload;
    match HandshakePacket::decode(&mut payload) {
        Err(error) => context.abort(error),
        Ok(packet) => {
            context.state = packet.next_state;
            Action::Continue
        },
    }
}

/// The status phase: answers the first status request with the status text,
/// and hands every other packet to `handle_connection_ping`.
pub fn handle_status(
    context: &mut ConnectionContext,
    server: &ServerContext,
    id: i32,
    payload: BytesMut,
) -> (action: Action)
    ensures
        (final(context)@, action@) == on_status(old(context)@, server@, id, bytes_of(payload)),
{
    if context.closed {
        return context.stay_closed();
    }
    match context.state {
        PacketState::Status => {},
        _ => {
            return context.out_of_phase(id);
        },
    }
    if id == 0 && !context.status_sent {
        context.status_sent = true;
        let packet = StatusResponse { json: server.status_json.clone() };
        context.deliver(&server.codec, &packet, false)
    } else {
        handle_connection_ping(context, server, id, payload)
    }
}

/// The ping of the status phase: answers with a pong of the same payload and
/// ends the connection. Any other packet is refused.
pub fn handle_connection_ping(
    context: &mut ConnectionContext,
    server: &ServerContext,
    id: i32,
    payload: BytesMut,
) -> (action: Action)
    ensures
        (final(context)@, action@) == on_ping(old(context)@, server@, id, bytes_of(payload)),
{
    if context.closed {
        return context.stay_closed();
    }
    match context.state {
        PacketState::Status => {},
        _ => {
            return context.out_of_phase(id);
        },
    }
    if id != 1 {
        return context.out_of_phase(id);
    }
    let mut payload = payload;
    match Ping::decode(&mut payload) {
        Err(error) => context.abort(error),
        Ok(ping) => context.deliver(&server.codec, &ping, true),
    }
}

/// What two decryptions mean for a login that awaits them. `None` stands for
/// a field that did not decrypt.
pub fn conclude_encryption(
    context: &mut ConnectionContext,
    server: &ServerContext,
    secret: Option<Vec<u8>>,
    token: Option<Vec<u8>>,
) -> (action: Action)
    ensures
        (final(context)@, action@) == on_decrypted(
            old(context)@,
            server@.max_size,
            bytes_view(secret),
            bytes_view(token),
        ),
{
    if context.closed {
        return context.stay_closed();
    }
    match (context.state, context.login) {
        (PacketState::Login, LoginPhase::AwaitingEncryptionResponse) => {},
        _ => {
            return context.out_of_phase(1);
        },
    }
    match EncryptionResponse::from_decrypted(secret, token) {
        Err(error) => context.abort(ServerError::from(error)),
        Ok(response) => {
            if response.token_matches(context.verify_token.as_slice()) {
                context.shared_secret = Some(response.shared_secret);
                context.finish_login(&server.codec)
            } else {
                context.refuse("Verify token mismatch")
            }
        },
    }
}

/// The login phase: takes the login start, or the encryption response that
/// the connection awaits, from `payload` and answers it. The two fields of a
/// response are decrypted with the server's private key.
pub fn handle_connection_login(
    context: &mut ConnectionContext,
    server: &ServerContext,
    id: i32,
    payload: BytesMut,
) -> (action: Action)
    ensures
        (final(context)@, action@) == on_login(old(context)@, server@, id, bytes_of(payload)),
{
    let ghost pre = context@;
    let ghost body = bytes_of(payload);
    let mut payload = payload;
    if context.closed {
        let action = context.stay_closed();
        assert((context@, action@) == on_login(pre, server@, id, body));
        return action;
    }
    match context.state {
        PacketState::Login => {},
        _ => {
            let action = context.out_of_phase(id);
            assert((context@, action@) == on_login(pre, server@, id, body));
            return action;
        },
    }
    match context.login {
        LoginPhase::Started => {
            if id != 0 {
                let action = context.out_of_phase(id);
                assert((context@, action@) == on_login(pre, server@, id, body));
                return action;
            }
            match LoginStart::decode(&mut payload) {
                Err(error) => {
                    let action = context.abort(error);
                    assert((context@, action@) == on_login(pre, server@, id, body));
                    action
                },
                Ok(packet) => {
                    context.username = packet.username;
                    let action = match &server.keys {
                        Some(keys) => {
                            context.login = LoginPhase::AwaitingEncryptionResponse;
                            let request = EncryptionRequest::from_keypair(
                                keys,
                                context.verify_token.as_slice(),
                            );
                            context.deliver(&server.codec, &request, false)
                        },
                        None => context.finish_login(&server.codec),
                    };
                    assert((context@, action@) == on_login(pre, server@, id, body));
                    action
                },
            }
        },
        LoginPhase::AwaitingEncryptionResponse => {
            let keys = match &server.keys {
                Some(keys) => keys,
                None => {
                    let action = context.out_of_phase(id);
                    assert((context@, action@) == on_login(pre, server@, id, body));
                    return action;
                },
            };
            if id != 1 {
                let action = context.out_of_phase(id);
                assert((context@, action@) == on_login(pre, server@, id, body));
                return action;
            }
            match EncryptionResponse::read_encrypted(&mut payload) {
                Err(error) => {
                    let action = context.abort(ServerError::from(error));
                    assert((context@, action@) == on_login(pre, server@, id, body));
                    action
                },
                Ok(fields) => {
                    let secret = EncryptionResponse::decrypt(
                        keys.private_key(),
                        fields.shared_secret.as_slice(),
                    );
                    let token = EncryptionResponse::decrypt(
                        keys.private_key(),
                        fields.verify_token.as_slice(),
                    );
                    conclude_encryption(context, server, secret, token)
                },
            }
        },
        LoginPhase::Authenticated => {
            let action = context.out_of_phase(id);
            assert((context@, action@) == on_login(pre, server@, id, body));
            action
        },
    }
}

/// One step of a connection: takes the next whole frame among the bytes that
/// were fed and answers it, or says that more bytes are needed.
///
/// The outcome is `step` of the state before.
pub fn handle_connection(context: &mut ConnectionContext, server: &ServerContext) -> (action:
    Action)
    ensures
        (final(context)@, action@) == step(old(context)@, server@),
{
    let ghost pre = context@;
    if context.closed {
        let action = context.stay_closed();
        assert((context@, action@) == step(pre, server@));
        return action;
    }
    let mut body = match server.codec.decode_frame(&mut context.read_buf) {
        Ok(Some(body)) => body,
        Ok(None) => {
            let action = Action::Read;
            assert((context@, action@) == step(pre, server@));
            return action;
        },
        Err(error) => {
            let action = context.abort(error);
            assert((context@, action@) == step(pre, server@));
            return action;
        },
    };
    let id = match read_varint(&mut body) {
        Ok(Some(id)) => id,
        _ => {
            let action = context.refuse("Invalid packet ID");
            assert((context@, action@) == step(pre, server@));
            return action;
        },
    };
    match context.state {
        PacketState::Handshake => {
            let action = handle_handshake(context, id, body);
            assert((context@, action@) == step(pre, server@));
            action
        },
        PacketState::Status => {
            let action = handle_status(context, server, id, body);
            assert((context@, action@) == step(pre, server@));
            action
        },
        PacketState::Login => {
            let action = handle_connection_login(context, server, id, body);
            assert((context@, action@) == step(pre, server@));
            action
        },
        PacketState::Play => {
            let action = context.out_of_phase(id);
            assert((context@, action@) == step(pre, server@));
            action
        },
    }
}

} // verus!
