//! Encryption response: the client sends back the shared secret and the
//! verify token, both encrypted to the server's public key.

use crate::buffer::{bytes_of, consume, contents};
use crate::net::error::{ServerError, ServerErrorView};
use crate::net::login::encryption::key::{decrypt_pkcs1v15, pkcs1v15_plain};
use crate::net::protocol::{Packet, PacketError, PacketErrorView};
use crate::varint::model::{decode_i32, value32};
use crate::varint::utils::peek_varint;
use crate::varint::Decoded;
use bytes::BytesMut;
use rsa::RsaPrivateKey;
use vstd::prelude::*;
use vstd::slice::{slice_subrange, slice_to_vec};

verus! {

/// The answer that closes the key exchange, after decryption. The server only
/// ever receives it.
#[derive(Debug, Clone)]
pub struct EncryptionResponse {
    /// The key of the encrypted transport.
    pub shared_secret: Vec<u8>,
    /// The token that the client sent back.
    pub verify_token: Vec<u8>,
}

/// An `EncryptionResponse` as contracts see it.
pub struct EncryptionResponseView {
    pub shared_secret: Seq<u8>,
    pub verify_token: Seq<u8>,
}

impl View for EncryptionResponse {
    type V = EncryptionResponseView;

    open spec fn view(&self) -> EncryptionResponseView {
        EncryptionResponseView {
            shared_secret: self.shared_secret@,
            verify_token: self.verify_token@,
        }
    }
}

/// The two encrypted fields of a response, as they came.
#[derive(Debug, Clone)]
pub struct EncryptedFields {
    pub shared_secret: Vec<u8>,
    pub verify_token: Vec<u8>,
}

/// The error text for an attempt to send an encryption response.
pub open spec fn receive_only_text() -> Seq<char> {
    "EncryptionResponse は受信用専用です"@
}

/// The error text for an attempt to read a response without the key.
pub open spec fn needs_key_text() -> Seq<char> {
    "decode_with_key を使用してください"@
}

/// The error text for a payload without the length of the secret.
pub open spec fn bad_secret_length_text() -> Seq<char> {
    "shared_secretの長さ読み込み失敗"@
}

/// The error text for a payload without the length of the token.
pub open spec fn bad_token_length_text() -> Seq<char> {
    "verify_tokenの長さ読み込み失敗"@
}

/// The error text for a secret that does not decrypt.
pub open spec fn bad_secret_text() -> Seq<char> {
    "shared_secret復号失敗"@
}

/// The error text for a token that does not decrypt.
pub open spec fn bad_token_text() -> Seq<char> {
    "verify_token復号失敗"@
}

/// Reads the two encrypted fields from the front of a payload: each is a
/// length and that many bytes. The result holds the secret, the token and the
/// number of bytes that both took.
pub open spec fn parse_encrypted(body: Seq<u8>) -> Result<(Seq<u8>, Seq<u8>, nat), PacketErrorView> {
    let first = decode_i32(body);
    if !(first is Complete) {
        Err(PacketErrorView::DecodeError(bad_secret_length_text()))
    } else {
        let at_secret = first->len as int;
        let secret_len = value32(first->value) as int;
        if secret_len < 0 || body.len() - at_secret < secret_len {
            Err(PacketErrorView::IncompletePacket)
        } else {
            let at_second = at_secret + secret_len;
            let second = decode_i32(body.skip(at_second));
            if !(second is Complete) {
                Err(PacketErrorView::DecodeError(bad_token_length_text()))
            } else {
                let at_token = at_second + second->len;
                let token_len = value32(second->value) as int;
                if token_len < 0 || body.len() - at_token < token_len {
                    Err(PacketErrorView::IncompletePacket)
                } else {
                    Ok(
                        (
                            body.subrange(at_secret, at_second),
                            body.subrange(at_token, at_token + token_len),
                            (at_token + token_len) as nat,
                        ),
                    )
                }
            }
        }
    }
}

/// The response that two decryptions give: both must have succeeded, and the
/// failure of the secret is reported before that of the token.
pub open spec fn assemble(secret: Option<Seq<u8>>, token: Option<Seq<u8>>) -> Result<
    EncryptionResponseView,
    PacketErrorView,
> {
    match secret {
        None => Err(PacketErrorView::DecodeError(bad_secret_text())),
        Some(shared_secret) => match token {
            None => Err(PacketErrorView::DecodeError(bad_token_text())),
            Some(verify_token) => Ok(EncryptionResponseView { shared_secret, verify_token }),
        },
    }
}

/// The view of an optional byte vector.
pub open spec fn bytes_view(bytes: Option<Vec<u8>>) -> Option<Seq<u8>> {
    match bytes {
        None => None,
        Some(v) => Some(v@),
    }
}

/// Whether two runs of bytes are the same.
pub fn same_bytes(a: &[u8], b: &[u8]) -> (same: bool)
    ensures
        same == (a@ == b@),
{
    if a.len() != b.len() {
        return false;
    }
    let mut i: usize = 0;
    while i < a.len()
        invariant
            i <= a@.len() == b@.len(),
            a@.take(i as int) == b@.take(i as int),
        decreases a@.len() - i,
    {
        if a[i] != b[i] {
            return false;
        }
        assert(a@.take(i + 1) =~= a@.take(i as int).push(a@[i as int]));
        assert(b@.take(i + 1) =~= b@.take(i as int).push(b@[i as int]));
        i += 1;
    }
    assert(a@ =~= a@.take(i as int));
    assert(b@ =~= b@.take(i as int));
    true
}

impl EncryptionResponse {
    /// Takes the two encrypted fields from the front of `buf`, or reports the
    /// error and takes nothing.
    pub fn read_encrypted(buf: &mut BytesMut) -> (fields: Result<EncryptedFields, PacketError>)
        ensures
            match parse_encrypted(bytes_of(*old(buf))) {
                Ok((secret, token, len)) => fields matches Ok(f) && f.shared_secret@ == secret
                    && f.verify_token@ == token && bytes_of(*final(buf)) == bytes_of(
                    *old(buf),
                ).skip(len as int),
                Err(e) => fields matches Err(error) && error@ == e && bytes_of(*final(buf))
                    == bytes_of(*old(buf)),
            },
    {
        let bytes = contents(buf);
        let (secret_len, at_secret) = match peek_varint(bytes) {
            Decoded::Value(value, len) => (value, len),
            _ => {
                return Err(PacketError::DecodeError("shared_secretの長さ読み込み失敗".to_owned()));
            },
        };
        if secret_len < 0 || bytes.len() - at_secret < secret_len as usize {
            return Err(PacketError::IncompletePacket);
        }
        let at_second: usize = at_secret + secret_len as usize;
        let (token_len, second_len) = match peek_varint(
            slice_subrange(bytes, at_second, bytes.len()),
        ) {
            Decoded::Value(value, len) => (value, len),
            _ => {
                return Err(PacketError::DecodeError("verify_tokenの長さ読み込み失敗".to_owned()));
            },
        };
        let at_token: usize = at_second + second_len;
        if token_len < 0 || bytes.len() - at_token < token_len as usize {
            return Err(PacketError::IncompletePacket);
        }
        let end: usize = at_token + token_len as usize;
        let shared_secret = slice_to_vec(slice_subrange(bytes, at_secret, at_second));
        let verify_token = slice_to_vec(slice_subrange(bytes, at_token, end));
        consume(buf, end);
        Ok(EncryptedFields { shared_secret, verify_token })
    }

    /// The response made of two decryptions: `None` stands for a field that
    /// did not decrypt.
    pub fn from_decrypted(secret: Option<Vec<u8>>, token: Option<Vec<u8>>) -> (response: Result<
        Self,
        PacketError,
    >)
        ensures
            match assemble(bytes_view(secret), bytes_view(token)) {
                Ok(view) => response matches Ok(r) && r@ == view,
                Err(e) => response matches Err(error) && error@ == e,
            },
    {
        let shared_secret = match secret {
            Some(bytes) => bytes,
            None => {
                return Err(PacketError::DecodeError("shared_secret復号失敗".to_owned()));
            },
        };
        let verify_token = match token {
            Some(bytes) => bytes,
            None => {
                return Err(PacketError::DecodeError("verify_token復号失敗".to_owned()));
            },
        };
        Ok(EncryptionResponse { shared_secret, verify_token })
    }

    /// Takes a response from the front of `buf` and decrypts its two fields
    /// with the server's private key: the response is what `assemble` makes
    /// of the two decryptions.
    pub fn decode_with_key(buf: &mut BytesMut, private_key: &RsaPrivateKey) -> (response: Result<
        Self,
        PacketError,
    >)
        ensures
            match parse_encrypted(bytes_of(*old(buf))) {
                Ok((secret, token, len)) => bytes_of(*final(buf)) == bytes_of(*old(buf)).skip(
                    len as int,
                ) && match assemble(
                    pkcs1v15_plain(*private_key, secret),
                    pkcs1v15_plain(*private_key, token),
                ) {
                    Ok(view) => response matches Ok(r) && r@ == view,
                    Err(e) => response matches Err(error) && error@ == e,
                },
                Err(e) => response matches Err(error) && error@ == e && bytes_of(*final(buf))
                    == bytes_of(*old(buf)),
            },
    {
        let fields = match Self::read_encrypted(buf) {
            Ok(fields) => fields,
            Err(error) => {
                return Err(error);
            },
        };
        let secret = Self::decrypt(private_key, fields.shared_secret.as_slice());
        let token = Self::decrypt(private_key, fields.verify_token.as_slice());
        Self::from_decrypted(secret, token)
    }

    /// One field decrypted, or `None` where it does not decrypt.
    pub(crate) fn decrypt(private_key: &RsaPrivateKey, ciphertext: &[u8]) -> (plain: Option<Vec<u8>>)
        ensures
            bytes_view(plain) == pkcs1v15_plain(*private_key, ciphertext@),
    {
        Self::plain_of(decrypt_pkcs1v15(private_key, ciphertext))
    }

    /// What one decryption means for `from_decrypted`: its plain bytes, or
    /// `None` where the key reported that the field does not decrypt.
    pub fn plain_of(outcome: Result<Vec<u8>, rsa::Error>) -> (plain: Option<Vec<u8>>)
        ensures
            match outcome {
                Ok(bytes) => plain == Some(bytes),
                Err(_) => plain is None,
            },
    {
        match outcome {
            Ok(bytes) => Some(bytes),
            Err(_) => None,
        }
    }

    /// Whether the client sent back the token that the server had sent.
    pub fn token_matches(&self, expected: &[u8]) -> (same: bool)
        ensures
            same == (self.verify_token@ == expected@),
    {
        same_bytes(self.verify_token.as_slice(), expected)
    }
}

impl Packet for EncryptionResponse {
    open spec fn id() -> i32 {
        0x01
    }

    open spec fn payload(&self) -> Result<Seq<u8>, ServerErrorView> {
        Err(ServerErrorView::Protocol(receive_only_text()))
    }

    open spec fn parse(body: Seq<u8>) -> Result<(EncryptionResponseView, nat), ServerErrorView> {
        Err(ServerErrorView::Protocol(needs_key_text()))
    }

    fn packet_id(&self) -> (id: i32) {
        0x01
    }

    fn encode(&self, _buf: &mut BytesMut) -> (done: Result<(), ServerError>) {
        Err(ServerError::Protocol("EncryptionResponse は受信用専用です".to_owned()))
    }

    fn decode(_buf: &mut BytesMut) -> (packet: Result<Self, ServerError>) {
        Err(ServerError::Protocol("decode_with_key を使用してください".to_owned()))
    }
}

} // verus!
