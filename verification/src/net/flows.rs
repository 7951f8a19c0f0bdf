//! What the state machine does, proved for every input.
//!
//! The contracts of `connection` say that one step of a connection is `step`.
//! This module proves what follows from that for whole exchanges: a
//! connection only moves forward, an oversized frame ends it, a partial frame
//! makes it wait, and the status and login exchanges run to their end for
//! every address, every ping and every name.

use crate::fixed::encode_be_i64;
use crate::net::connection::{
    dispatch, finish_login, fresh, on_decrypted, on_handshake, on_login,
    on_ping, on_status, refuse, request_payload, stay_closed, step, token_mismatch_text,
    ActionView, ConnectionView, LoginPhase, ServerView,
};
use crate::net::login::encryption::request::encode_block;
use crate::net::login::encryption::key::pkcs1v15_plain;
use crate::net::login::encryption::response::{bad_secret_text, bad_token_text, parse_encrypted};
use crate::net::error::ServerErrorView;
use crate::net::login::success::{login_success_payload, LoginSuccessView};
use crate::net::protocol::codec::{
    body_fits, frame, frame_body, lemma_frame_boundary, packet_too_large_text, scan_frame,
};
use crate::net::protocol::handshake::{
    bad_next_state_text, handshake_payload, lemma_handshake_round_trip, HandshakeView,
};
use crate::net::protocol::{packet_error_text, PacketErrorView, PacketState};
use crate::net::status::{lemma_ping_round_trip, Ping};
use crate::varint::model::{
    decode_i32, encode_i32, encode_string, lemma_string_round_trip, lemma_varint_round_trip,
    string_fits,
};
use vstd::prelude::*;

verus! {

/// Whether a connection in phase `from` may be in phase `to` one step later:
/// it stays, or it goes from the handshake to status or login, or from login
/// to play.
pub open spec fn may_follow(from: PacketState, to: PacketState) -> bool {
    ||| from == to
    ||| from == PacketState::Handshake && (to == PacketState::Status || to == PacketState::Login)
    ||| from == PacketState::Login && to == PacketState::Play
}

/// A connection only moves forward, and a connection that is over stays
/// over.
pub proof fn lemma_phases_move_forward(pre: ConnectionView, server: ServerView)
    ensures
        may_follow(pre.state, step(pre, server).0.state),
        pre.closed ==> step(pre, server) == (pre, ActionView::Close(Seq::empty())),
        pre.closed ==> step(pre, server).0.closed,
{
}

/// Each phase's handler, called on its own, moves a connection forward only
/// and leaves a connection that is over as it is.
pub proof fn lemma_handlers_move_forward(
    pre: ConnectionView,
    server: ServerView,
    id: i32,
    payload: Seq<u8>,
    secret: Option<Seq<u8>>,
    token: Option<Seq<u8>>,
)
    ensures
        may_follow(pre.state, on_handshake(pre, id, payload).0.state),
        may_follow(pre.state, on_status(pre, server, id, payload).0.state),
        may_follow(pre.state, on_ping(pre, server, id, payload).0.state),
        may_follow(pre.state, on_login(pre, server, id, payload).0.state),
        may_follow(pre.state, on_decrypted(pre, server.max_size, secret, token).0.state),
        pre.closed ==> on_handshake(pre, id, payload) == stay_closed(pre),
        pre.closed ==> on_status(pre, server, id, payload) == stay_closed(pre),
        pre.closed ==> on_ping(pre, server, id, payload) == stay_closed(pre),
        pre.closed ==> on_login(pre, server, id, payload) == stay_closed(pre),
        pre.closed ==> on_decrypted(pre, server.max_size, secret, token) == stay_closed(pre),
{
}

/// Whatever a step does to a connection, it leaves the connection's identity
/// alone: its session identifier and its verify token.
pub proof fn lemma_identity_is_kept(pre: ConnectionView, server: ServerView)
    ensures
        step(pre, server).0.session_id == pre.session_id,
        step(pre, server).0.verify_token == pre.verify_token,
{
}

/// A step that ends in an error or in a last answer leaves the connection
/// over; a step that waits changes nothing.
pub proof fn lemma_actions_and_closure(pre: ConnectionView, server: ServerView)
    ensures
        step(pre, server).1 is Abort ==> step(pre, server).0.closed,
        step(pre, server).1 is Close ==> step(pre, server).0.closed,
        step(pre, server).1 is Read ==> step(pre, server).0 == pre,
{
}

/// The key of the transport is set only by a login whose awaited response
/// held the connection's own verify token, encrypted to the server's key: a
/// step that sets the key has decrypted a field of what the peer sent to that
/// token, the key that it sets is the decryption of the other field, and the
/// step ends in the play phase.
pub proof fn lemma_secret_needs_the_token(pre: ConnectionView, server: ServerView)
    requires
        pre.shared_secret is None,
        step(pre, server).0.shared_secret is Some,
    ensures
        pre.login == LoginPhase::AwaitingEncryptionResponse,
        server.private_key is Some,
        exists|secret: Seq<u8>, token: Seq<u8>|
            #![trigger
                pkcs1v15_plain(server.private_key->0, secret),
                pkcs1v15_plain(server.private_key->0, token)
            ]
            pkcs1v15_plain(server.private_key->0, token) == Some(pre.verify_token)
                && pkcs1v15_plain(server.private_key->0, secret) == step(
                pre,
                server,
            ).0.shared_secret,
        step(pre, server).0.state == PacketState::Play,
        step(pre, server).0.closed,
{
    let scanned = scan_frame(pre.pending, server.max_size);
    let body = scanned->body;
    let payload = body.skip(decode_i32(body)->len as int);
    let fields = parse_encrypted(payload)->Ok_0;
    let key = server.private_key->0;
    assert(pkcs1v15_plain(key, fields.1) == Some(pre.verify_token));
    assert(pkcs1v15_plain(key, fields.0) == step(pre, server).0.shared_secret);
}

/// A declared frame length above the allowed one ends the connection with a
/// protocol error.
pub proof fn lemma_oversized_frame_aborts(pre: ConnectionView, server: ServerView)
    requires
        !pre.closed,
        scan_frame(pre.pending, server.max_size) is Oversized,
    ensures
        step(pre, server).1 == ActionView::Abort(
            ServerErrorView::Protocol(packet_too_large_text()),
        ),
        step(pre, server).0.closed,
{
}

/// A connection that holds only a proper part of a frame waits, and nothing
/// of it changes.
pub proof fn lemma_partial_frame_waits(
    pre: ConnectionView,
    server: ServerView,
    body: Seq<u8>,
    n: int,
)
    requires
        !pre.closed,
        body_fits(body, server.max_size),
        0 <= n < frame(body).len(),
        pre.pending == frame(body).take(n),
    ensures
        step(pre, server) == (pre, ActionView::Read),
{
    lemma_frame_boundary(body, server.max_size, n, Seq::empty());
}

/// A connection whose pending bytes start with a whole frame takes that
/// frame, keeps what follows it, and answers the packet in it.
pub proof fn lemma_step_takes_one_frame(
    pre: ConnectionView,
    server: ServerView,
    id: i32,
    payload: Seq<u8>,
    rest: Seq<u8>,
)
    requires
        !pre.closed,
        body_fits(frame_body(id, payload), server.max_size),
        pre.pending == frame(frame_body(id, payload)) + rest,
    ensures
        step(pre, server) == dispatch(
            ConnectionView { pending: rest, ..pre },
            server,
            id,
            payload,
        ),
{
    let body = frame_body(id, payload);
    lemma_frame_boundary(body, server.max_size, 0, rest);
    lemma_varint_round_trip(id, payload);
    assert(body.skip(encode_i32(id).len() as int) =~= payload);
}

/// The bytes of a frame that holds a handshake.
pub open spec fn handshake_frame(packet: HandshakeView) -> Seq<u8> {
    frame(frame_body(0, handshake_payload(packet)))
}

/// The bytes of a frame that holds a status request.
pub open spec fn status_request_frame() -> Seq<u8> {
    frame(frame_body(0, Seq::empty()))
}

/// The bytes of a frame that holds a ping, or the pong that answers it.
pub open spec fn ping_frame(payload: i64) -> Seq<u8> {
    frame(frame_body(1, encode_be_i64(payload)))
}

/// The bytes of a frame that holds a login start.
pub open spec fn login_start_frame(username: Seq<char>) -> Seq<u8> {
    frame(frame_body(0, encode_string(username)))
}

/// A handshake moves the connection to the phase that it asks for, status or
/// login, and nothing is sent.
pub proof fn lemma_handshake_step(
    pre: ConnectionView,
    server: ServerView,
    hello: HandshakeView,
    rest: Seq<u8>,
)
    requires
        !pre.closed,
        pre.state == PacketState::Handshake,
        pre.pending == handshake_frame(hello) + rest,
        hello.next_state == PacketState::Status || hello.next_state == PacketState::Login,
        string_fits(hello.server_address),
        body_fits(frame_body(0, handshake_payload(hello)), server.max_size),
    ensures
        step(pre, server) == (
            ConnectionView { state: hello.next_state, pending: rest, ..pre },
            ActionView::Continue,
        ),
{
    lemma_step_takes_one_frame(pre, server, 0, handshake_payload(hello), rest);
    lemma_handshake_round_trip(hello, Seq::empty());
    assert(handshake_payload(hello) + Seq::<u8>::empty() =~= handshake_payload(hello));
}

/// A handshake that asks for a phase other than status or login ends the
/// connection with a protocol error.
pub proof fn lemma_handshake_for_another_phase_aborts(
    pre: ConnectionView,
    server: ServerView,
    hello: HandshakeView,
    rest: Seq<u8>,
)
    requires
        !pre.closed,
        pre.state == PacketState::Handshake,
        pre.pending == handshake_frame(hello) + rest,
        hello.next_state == PacketState::Handshake || hello.next_state == PacketState::Play,
        string_fits(hello.server_address),
        body_fits(frame_body(0, handshake_payload(hello)), server.max_size),
    ensures
        step(pre, server) == refuse(
            ConnectionView { pending: rest, ..pre },
            bad_next_state_text(),
        ),
{
    lemma_step_takes_one_frame(pre, server, 0, handshake_payload(hello), rest);
    lemma_handshake_round_trip(hello, Seq::empty());
    assert(handshake_payload(hello) + Seq::<u8>::empty() =~= handshake_payload(hello));
}

/// The first status request of the status phase is answered with the status
/// text, and the connection goes on.
pub proof fn lemma_status_request_step(pre: ConnectionView, server: ServerView, rest: Seq<u8>)
    requires
        !pre.closed,
        pre.state == PacketState::Status,
        !pre.status_sent,
        pre.pending == status_request_frame() + rest,
        server.max_size >= 1,
        string_fits(server.status_json),
        body_fits(frame_body(0, encode_string(server.status_json)), server.max_size),
    ensures
        step(pre, server) == (
            ConnectionView { status_sent: true, pending: rest, ..pre },
            ActionView::Send(frame(frame_body(0, encode_string(server.status_json)))),
        ),
{
    lemma_varint_round_trip(0, Seq::empty());
    assert(frame_body(0, Seq::empty()).len() == 1);
    lemma_step_takes_one_frame(pre, server, 0, Seq::empty(), rest);
}

/// A ping in the status phase is answered with a pong of the same payload,
/// and the connection is over.
pub proof fn lemma_ping_step(pre: ConnectionView, server: ServerView, payload: i64, rest: Seq<u8>)
    requires
        !pre.closed,
        pre.state == PacketState::Status,
        pre.pending == ping_frame(payload) + rest,
        server.max_size >= 9,
    ensures
        step(pre, server) == (
            ConnectionView { pending: rest, closed: true, ..pre },
            ActionView::Close(ping_frame(payload)),
        ),
{
    lemma_varint_round_trip(1, encode_be_i64(payload));
    crate::fixed::lemma_be_i64_round_trip(payload);
    assert(frame_body(1, encode_be_i64(payload)).len() == 9);
    lemma_step_takes_one_frame(pre, server, 1, encode_be_i64(payload), rest);
    lemma_ping_round_trip(Ping { payload }, Seq::empty());
    assert(encode_be_i64(payload) + Seq::<u8>::empty() =~= encode_be_i64(payload));
}

/// On a server without a key pair, a login start finishes the login: the
/// login success carries the connection's session identifier and the name
/// that the client gave, the connection reaches the play phase, and the
/// exchange is over.
pub proof fn lemma_login_start_step(
    pre: ConnectionView,
    server: ServerView,
    username: Seq<char>,
    rest: Seq<u8>,
)
    requires
        !pre.closed,
        pre.state == PacketState::Login,
        pre.login == LoginPhase::Started,
        pre.pending == login_start_frame(username) + rest,
        server.public_key is None,
        string_fits(username),
        body_fits(frame_body(0, encode_string(username)), server.max_size),
        body_fits(
            frame_body(
                2,
                login_success_payload(LoginSuccessView { uuid: pre.session_id, username }),
            ),
            server.max_size,
        ),
    ensures
        step(pre, server) == (
            ConnectionView {
                state: PacketState::Play,
                login: LoginPhase::Authenticated,
                username,
                pending: rest,
                closed: true,
                ..pre
            },
            ActionView::Close(
                frame(
                    frame_body(
                        2,
                        login_success_payload(
                            LoginSuccessView { uuid: pre.session_id, username },
                        ),
                    ),
                ),
            ),
        ),
{
    lemma_step_takes_one_frame(pre, server, 0, encode_string(username), rest);
    lemma_string_round_trip(username, Seq::empty());
    assert(encode_string(username) + Seq::<u8>::empty() =~= encode_string(username));
}

/// On a server with a key pair, a login start is answered with the
/// encryption request: the server's public key and the connection's verify
/// token. The connection then awaits the response.
pub proof fn lemma_encryption_request_step(
    pre: ConnectionView,
    server: ServerView,
    username: Seq<char>,
    rest: Seq<u8>,
)
    requires
        !pre.closed,
        pre.state == PacketState::Login,
        pre.login == LoginPhase::Started,
        pre.pending == login_start_frame(username) + rest,
        server.public_key is Some,
        string_fits(username),
        body_fits(frame_body(0, encode_string(username)), server.max_size),
        request_payload(server.public_key->0, pre.verify_token) is Ok,
        body_fits(
            frame_body(1, request_payload(server.public_key->0, pre.verify_token)->Ok_0),
            server.max_size,
        ),
    ensures
        step(pre, server) == (
            ConnectionView {
                login: LoginPhase::AwaitingEncryptionResponse,
                username,
                pending: rest,
                ..pre
            },
            ActionView::Send(
                frame(frame_body(1, request_payload(server.public_key->0, pre.verify_token)->Ok_0)),
            ),
        ),
{
    lemma_step_takes_one_frame(pre, server, 0, encode_string(username), rest);
    lemma_string_round_trip(username, Seq::empty());
    assert(encode_string(username) + Seq::<u8>::empty() =~= encode_string(username));
}

/// The bytes of a frame that holds an encryption response with these two
/// encrypted fields.
pub open spec fn encryption_response_frame(secret: Seq<u8>, token: Seq<u8>) -> Seq<u8> {
    frame(frame_body(1, encode_block(secret) + encode_block(token)))
}

/// The two encrypted fields of an encryption response are read back as they
/// were written.
pub proof fn lemma_encrypted_fields_round_trip(secret: Seq<u8>, token: Seq<u8>, rest: Seq<u8>)
    requires
        secret.len() <= i32::MAX,
        token.len() <= i32::MAX,
    ensures
        parse_encrypted(encode_block(secret) + encode_block(token) + rest) == Ok::<
            (Seq<u8>, Seq<u8>, nat),
            PacketErrorView,
        >((secret, token, (encode_block(secret) + encode_block(token)).len())),
{
    let body = encode_block(secret) + encode_block(token) + rest;
    let first = encode_i32(secret.len() as i32);
    let second = encode_i32(token.len() as i32);
    assert(body =~= first + (secret + encode_block(token) + rest));
    lemma_varint_round_trip(secret.len() as i32, secret + encode_block(token) + rest);
    let at_secret = first.len() as int;
    let at_second = at_secret + secret.len();
    assert(body.subrange(at_secret, at_second) =~= secret);
    assert(body.skip(at_second) =~= second + (token + rest));
    lemma_varint_round_trip(token.len() as i32, token + rest);
    let at_token = at_second + second.len();
    assert(body.subrange(at_token, at_token + token.len()) =~= token);
}

/// The end of the key exchange. A connection that awaits the encryption
/// response takes it and decrypts its two fields with the server's private
/// key. Where both decrypt and the token is the one that the connection had
/// sent, the decrypted secret becomes the key of the transport and the login
/// finishes with it; where the token is another, or a field does not
/// decrypt, the connection ends with a protocol error and no key is set.
pub proof fn lemma_encryption_response_step(
    pre: ConnectionView,
    server: ServerView,
    encrypted_secret: Seq<u8>,
    encrypted_token: Seq<u8>,
    rest: Seq<u8>,
)
    requires
        !pre.closed,
        pre.state == PacketState::Login,
        pre.login == LoginPhase::AwaitingEncryptionResponse,
        server.private_key is Some,
        pre.pending == encryption_response_frame(encrypted_secret, encrypted_token) + rest,
        encrypted_secret.len() <= i32::MAX,
        encrypted_token.len() <= i32::MAX,
        body_fits(
            frame_body(1, encode_block(encrypted_secret) + encode_block(encrypted_token)),
            server.max_size,
        ),
    ensures
        step(pre, server) == on_decrypted(
            ConnectionView { pending: rest, ..pre },
            server.max_size,
            pkcs1v15_plain(server.private_key->0, encrypted_secret),
            pkcs1v15_plain(server.private_key->0, encrypted_token),
        ),
        step(pre, server) == match (
            pkcs1v15_plain(server.private_key->0, encrypted_secret),
            pkcs1v15_plain(server.private_key->0, encrypted_token),
        ) {
            (Some(secret), Some(token)) => if token == pre.verify_token {
                finish_login(
                    ConnectionView { pending: rest, shared_secret: Some(secret), ..pre },
                    server.max_size,
                )
            } else {
                refuse(ConnectionView { pending: rest, ..pre }, token_mismatch_text())
            },
            (None, _) => refuse(
                ConnectionView { pending: rest, ..pre },
                packet_error_text(PacketErrorView::DecodeError(bad_secret_text())),
            ),
            (Some(_), None) => refuse(
                ConnectionView { pending: rest, ..pre },
                packet_error_text(PacketErrorView::DecodeError(bad_token_text())),
            ),
        },
        pkcs1v15_plain(server.private_key->0, encrypted_token) != Some(pre.verify_token) ==> step(
            pre,
            server,
        ).0.shared_secret == pre.shared_secret && step(pre, server).1 is Abort,
{
    let payload = encode_block(encrypted_secret) + encode_block(encrypted_token);
    lemma_step_takes_one_frame(pre, server, 1, payload, rest);
    lemma_encrypted_fields_round_trip(encrypted_secret, encrypted_token, Seq::empty());
    assert(payload + Seq::<u8>::empty() =~= payload);
}

/// The state of a connection after `steps` steps.
pub open spec fn state_after(pre: ConnectionView, server: ServerView, steps: nat) -> ConnectionView
    decreases steps,
{
    if steps == 0 {
        pre
    } else {
        step(state_after(pre, server, (steps - 1) as nat), server).0
    }
}

/// The action of step number `index`, counted from zero.
pub open spec fn action_at(pre: ConnectionView, server: ServerView, index: nat) -> ActionView {
    step(state_after(pre, server, index), server).1
}

/// The status exchange from its first byte to its last.
///
/// A fresh connection is fed a handshake that asks for the status phase, a
/// status request and a ping. Its first step takes the handshake and sends
/// nothing; its second sends the status text; its third sends a pong with the
/// payload of the ping and ends the connection. This holds for every address,
/// port and protocol version, every ping, and every status text that fits the
/// codec.
pub proof fn lemma_status_exchange(
    start: ConnectionView,
    server: ServerView,
    hello: HandshakeView,
    payload: i64,
)
    requires
        start == (ConnectionView {
            pending: handshake_frame(hello) + status_request_frame() + ping_frame(payload),
            ..fresh(start.session_id, start.verify_token)
        }),
        hello.next_state == PacketState::Status,
        string_fits(hello.server_address),
        body_fits(frame_body(0, handshake_payload(hello)), server.max_size),
        string_fits(server.status_json),
        body_fits(frame_body(0, encode_string(server.status_json)), server.max_size),
        server.max_size >= 9,
    ensures
        action_at(start, server, 0) == ActionView::Continue,
        action_at(start, server, 1) == ActionView::Send(
            frame(frame_body(0, encode_string(server.status_json))),
        ),
        action_at(start, server, 2) == ActionView::Close(ping_frame(payload)),
        state_after(start, server, 3) == (ConnectionView {
            state: PacketState::Status,
            status_sent: true,
            closed: true,
            ..fresh(start.session_id, start.verify_token)
        }),
{
    let request = status_request_frame();
    let ping = ping_frame(payload);
    assert(start.pending =~= handshake_frame(hello) + (request + ping));
    lemma_handshake_step(start, server, hello, request + ping);
    let first = ConnectionView { state: PacketState::Status, pending: request + ping, ..start };
    lemma_status_request_step(first, server, ping);
    let second = ConnectionView { status_sent: true, pending: ping, ..first };
    assert(second.pending =~= ping + Seq::<u8>::empty());
    lemma_ping_step(second, server, payload, Seq::empty());
    assert(state_after(start, server, 0) == start);
    assert(state_after(start, server, 1) == first);
    assert(state_after(start, server, 2) == second);
    assert(state_after(start, server, 3) == step(second, server).0);
}

/// The login exchange without encryption, from its first byte to its last.
///
/// A fresh connection is fed a handshake that asks for the login phase and a
/// login start. Its first step takes the handshake and sends nothing; its
/// second sends the login success with the connection's session identifier
/// and the name that the client gave, reaches the play phase and ends the
/// exchange. This holds for every address and every name that fit, on every
/// server without a key pair.
pub proof fn lemma_login_exchange(
    start: ConnectionView,
    server: ServerView,
    hello: HandshakeView,
    username: Seq<char>,
)
    requires
        start == (ConnectionView {
            pending: handshake_frame(hello) + login_start_frame(username),
            ..fresh(start.session_id, start.verify_token)
        }),
        hello.next_state == PacketState::Login,
        string_fits(hello.server_address),
        body_fits(frame_body(0, handshake_payload(hello)), server.max_size),
        string_fits(username),
        body_fits(frame_body(0, encode_string(username)), server.max_size),
        body_fits(
            frame_body(
                2,
                login_success_payload(LoginSuccessView { uuid: start.session_id, username }),
            ),
            server.max_size,
        ),
        server.public_key is None,
    ensures
        action_at(start, server, 0) == ActionView::Continue,
        action_at(start, server, 1) == ActionView::Close(
            frame(
                frame_body(
                    2,
                    login_success_payload(LoginSuccessView { uuid: start.session_id, username }),
                ),
            ),
        ),
        state_after(start, server, 2) == (ConnectionView {
            state: PacketState::Play,
            login: LoginPhase::Authenticated,
            username,
            closed: true,
            ..fresh(start.session_id, start.verify_token)
        }),
{
    let login = login_start_frame(username);
    lemma_handshake_step(start, server, hello, login);
    let first = ConnectionView { state: PacketState::Login, pending: login, ..start };
    assert(first.pending =~= login + Seq::<u8>::empty());
    lemma_login_start_step(first, server, username, Seq::empty());
    assert(state_after(start, server, 0) == start);
    assert(state_after(start, server, 1) == first);
    assert(state_after(start, server, 2) == step(first, server).0);
}

} // verus!
