//! Encryption request: the server offers its public key and a verify token.

use crate::buffer::bytes_of;
use crate::net::error::{ServerError, ServerErrorView};
use crate::net::login::encryption::key::EncryptionKeyPair;
use crate::net::protocol::Packet;
use crate::varint::model::{encode_i32, encode_string, string_fits};
use crate::varint::utils::{encode_varint, write_string};
use crate::varint::{VarIntError, VarIntErrorKind};
use bytes::BytesMut;
use vstd::prelude::*;
use vstd::slice::slice_to_vec;

verus! {

/// The offer that opens the key exchange. The server only ever sends it.
#[derive(Debug, Clone)]
pub struct EncryptionRequest {
    /// The server's name in the exchange; usually empty.
    pub server_id: String,
    /// The public key in DER form.
    pub public_key: Vec<u8>,
    /// The random bytes that the client must send back encrypted.
    pub verify_token: Vec<u8>,
}

/// An `EncryptionRequest` as contracts see it.
pub struct EncryptionRequestView {
    pub server_id: Seq<char>,
    pub public_key: Seq<u8>,
    pub verify_token: Seq<u8>,
}

impl View for EncryptionRequest {
    type V = EncryptionRequestView;

    open spec fn view(&self) -> EncryptionRequestView {
        EncryptionRequestView {
            server_id: self.server_id@,
            public_key: self.public_key@,
            verify_token: self.verify_token@,
        }
    }
}

/// The error text for an attempt to read an encryption request.
pub open spec fn send_only_text() -> Seq<char> {
    "EncryptionRequest は送信用専用です"@
}

/// The bytes of a run of bytes with its length in front.
pub open spec fn encode_block(bytes: Seq<u8>) -> Seq<u8> {
    encode_i32(bytes.len() as i32) + bytes
}

/// Whether every field of the request fits its length field.
pub open spec fn request_fits(packet: EncryptionRequestView) -> bool {
    string_fits(packet.server_id) && packet.public_key.len() <= i32::MAX
        && packet.verify_token.len() <= i32::MAX
}

/// The bytes of an encryption request behind the packet id: the server's
/// name, the key and the token, each with its length in front.
pub open spec fn encryption_request_payload(packet: EncryptionRequestView) -> Seq<u8> {
    encode_string(packet.server_id) + encode_block(packet.public_key) + encode_block(
        packet.verify_token,
    )
}

impl EncryptionRequest {
    /// The request that offers this key pair's public key and the given
    /// token, under an empty server name.
    pub fn from_keypair(keypair: &EncryptionKeyPair, verify_token: &[u8]) -> (request: Self)
        ensures
            request@ == (EncryptionRequestView {
                server_id: Seq::empty(),
                public_key: keypair.public_der(),
                verify_token: verify_token@,
            }),
    {
        proof {
            reveal_strlit("");
        }
        let server_id = "".to_owned();
        assert(server_id@ =~= Seq::<char>::empty());
        EncryptionRequest {
            server_id,
            public_key: keypair.public_key_der(),
            verify_token: slice_to_vec(verify_token),
        }
    }
}

impl Packet for EncryptionRequest {
    open spec fn id() -> i32 {
        0x01
    }

    open spec fn payload(&self) -> Result<Seq<u8>, ServerErrorView> {
        if request_fits(self@) {
            Ok(encryption_request_payload(self@))
        } else {
            Err(ServerErrorView::VarInt(VarIntErrorKind::ValueTooLarge))
        }
    }

    open spec fn parse(body: Seq<u8>) -> Result<(EncryptionRequestView, nat), ServerErrorView> {
        Err(ServerErrorView::Protocol(send_only_text()))
    }

    fn packet_id(&self) -> (id: i32) {
        0x01
    }

    fn encode(&self, buf: &mut BytesMut) -> (done: Result<(), ServerError>) {
        if self.server_id.as_str().as_bytes().len() > i32::MAX as usize || self.public_key.len()
            > i32::MAX as usize || self.verify_token.len() > i32::MAX as usize {
            return Err(ServerError::VarInt(VarIntError::ValueTooLarge));
        }
        let _ = write_string(buf, self.server_id.as_str());
        let key_length = encode_varint(self.public_key.len() as i32);
        buf.extend_from_slice(key_length.as_slice());
        buf.extend_from_slice(self.public_key.as_slice());
        let token_length = encode_varint(self.verify_token.len() as i32);
        buf.extend_from_slice(token_length.as_slice());
        buf.extend_from_slice(self.verify_token.as_slice());
        proof {
            assert(bytes_of(*buf) =~= bytes_of(*old(buf)) + encryption_request_payload(self@));
        }
        Ok(())
    }

    fn decode(_buf: &mut BytesMut) -> (packet: Result<Self, ServerError>) {
        Err(ServerError::Protocol("EncryptionRequest は送信用専用です".to_owned()))
    }
}

} // verus!
