//! The server's key pair and the random bytes of the key exchange.

use crate::net::error::{ServerError, ServerErrorView};
use rand::RngCore;
use rsa::pkcs8::EncodePublicKey;
use rsa::{Pkcs1v15Encrypt, RsaPrivateKey, RsaPublicKey};
use vstd::prelude::*;
use vstd::slice::slice_to_vec;

verus! {

#[verifier::external_type_specification]
#[verifier::external_body]
pub struct ExRsaPrivateKey(rsa::RsaPrivateKey);

#[verifier::external_type_specification]
#[verifier::external_body]
pub struct ExRsaError(rsa::Error);

#[verifier::external_type_specification]
#[verifier::external_body]
pub struct ExSpkiError(rsa::pkcs8::spki::Error);

/// The strength of the key that `EncryptionKeyPair::new` makes, in bits.
pub const DEFAULT_KEY_BITS: usize = 1024;

/// The number of bytes in a verify token.
pub const VERIFY_TOKEN_LENGTH: usize = 16;

/// The DER form of the public half of a private key, or nothing where the
/// encoder refuses the key. This is what `to_public_key_der` gives for the
/// key's modulus and public exponent.
pub uninterp spec fn public_key_der_of(key: RsaPrivateKey) -> Option<Seq<u8>>;

/// What a private key makes of a ciphertext under PKCS#1 v1.5 padding: the
/// plain bytes, or nothing where the ciphertext does not decrypt. Decryption
/// without blinding draws nothing at random: the key and the ciphertext
/// decide.
pub uninterp spec fn pkcs1v15_plain(key: RsaPrivateKey, ciphertext: Seq<u8>) -> Option<Seq<u8>>;

/// `RsaPrivateKey::new` with the operating system's random source: a fresh
/// key of the given strength, or the generator's error. Which key is chance.
#[verifier::external_body]
fn generate_private_key(bits: usize) -> (key: Result<RsaPrivateKey, rsa::Error>) {
    RsaPrivateKey::new(&mut rand::rngs::OsRng, bits)
}

/// `EncodePublicKey::to_public_key_der` of the key's public half: its DER
/// form, or the encoder's error.
#[verifier::external_body]
fn encode_public_key(key: &RsaPrivateKey) -> (der: Result<Vec<u8>, rsa::pkcs8::spki::Error>)
    ensures
        match der {
            Ok(bytes) => public_key_der_of(*key) == Some(bytes@),
            Err(_) => public_key_der_of(*key) is None,
        },
{
    RsaPublicKey::from(key).to_public_key_der().map(|document| document.into_vec())
}

/// `RsaPrivateKey::decrypt` with PKCS#1 v1.5 padding: the plain bytes, or the
/// error of a ciphertext that this key did not make.
#[verifier::external_body]
pub(crate) fn decrypt_pkcs1v15(key: &RsaPrivateKey, ciphertext: &[u8]) -> (plain: Result<
    Vec<u8>,
    rsa::Error,
>)
    ensures
        match plain {
            Ok(bytes) => pkcs1v15_plain(*key, ciphertext@) == Some(bytes@),
            Err(_) => pkcs1v15_plain(*key, ciphertext@) is None,
        },
{
    key.decrypt(Pkcs1v15Encrypt, ciphertext)
}

/// `RngCore::fill_bytes` of the thread's random source, on a fresh vector:
/// `len` random bytes. Which bytes is chance.
#[verifier::external_body]
pub(crate) fn random_bytes(len: usize) -> (bytes: Vec<u8>)
    ensures
        bytes@.len() == len,
{
    let mut bytes = vec![0u8; len];
    rand::thread_rng().fill_bytes(&mut bytes);
    bytes
}

/// The error text for a key that the generator could not make.
pub open spec fn generation_failed_text() -> Seq<char> {
    "failed to generate private key"@
}

/// The error text for a public key that could not be encoded.
pub open spec fn encoding_failed_text() -> Seq<char> {
    "failed to encode public key"@
}

/// The key pair of one server process. It is made once, never changed, and
/// shared by every connection that negotiates encryption. Its public key is
/// always the public half of its private key.
pub struct EncryptionKeyPair {
    private_key: RsaPrivateKey,
    public_key_der: Vec<u8>,
}

impl EncryptionKeyPair {
    /// The public key is the public half of the private key.
    #[verifier::type_invariant]
    pub open spec fn halves_match(&self) -> bool {
        public_key_der_of(self.private()) == Some(self.public_der())
    }

    /// The DER form of the public key, as contracts see it.
    pub closed spec fn public_der(&self) -> Seq<u8> {
        self.public_key_der@
    }

    /// The private key, as contracts see it.
    pub closed spec fn private(&self) -> RsaPrivateKey {
        self.private_key
    }

    /// A fresh key pair of the default strength, or the configuration error
    /// of a key that could not be made. The public key of the pair is the
    /// public half of its private key.
    pub fn new() -> (pair: Result<Self, ServerError>)
        ensures
            pair matches Ok(p) ==> public_key_der_of(p.private()) == Some(p.public_der()),
            pair matches Err(e) ==> e@ == ServerErrorView::Config(generation_failed_text()) || e@
                == ServerErrorView::Config(encoding_failed_text()),
    {
        Self::generate(DEFAULT_KEY_BITS)
    }

    /// A fresh key pair of the given strength in bits, or the configuration
    /// error of a key that the generator could not make or whose public half
    /// the encoder refused. The public key of the pair is the public half of
    /// its private key.
    pub fn generate(bits: usize) -> (pair: Result<Self, ServerError>)
        ensures
            pair matches Ok(p) ==> public_key_der_of(p.private()) == Some(p.public_der()),
            pair matches Err(e) ==> e@ == ServerErrorView::Config(generation_failed_text()) || e@
                == ServerErrorView::Config(encoding_failed_text()),
    {
        match generate_private_key(bits) {
            Ok(key) => Self::from_private_key(key),
            Err(_) => Err(ServerError::Config("failed to generate private key".to_owned())),
        }
    }

    /// The key pair of a private key that exists already: the key and the DER
    /// form of its public half. It is refused where the encoder refuses the
    /// key.
    pub fn from_private_key(private_key: RsaPrivateKey) -> (pair: Result<Self, ServerError>)
        ensures
            match public_key_der_of(private_key) {
                Some(der) => pair matches Ok(p) && p.private() == private_key && p.public_der()
                    == der,
                None => pair matches Err(e) && e@ == ServerErrorView::Config(
                    encoding_failed_text(),
                ),
            },
    {
        match encode_public_key(&private_key) {
            Ok(public_key_der) => Ok(EncryptionKeyPair { private_key, public_key_der }),
            Err(_) => Err(ServerError::Config("failed to encode public key".to_owned())),
        }
    }

    /// The DER form of the public key: the public half of the private key.
    pub fn public_key_der(&self) -> (der: Vec<u8>)
        ensures
            der@ == self.public_der(),
            public_key_der_of(self.private()) == Some(der@),
    {
        proof {
            use_type_invariant(self);
        }
        slice_to_vec(self.public_key_der.as_slice())
    }

    /// The private key, for decrypting what clients send.
    pub fn private_key(&self) -> (key: &RsaPrivateKey)
        ensures
            *key == self.private(),
    {
        &self.private_key
    }

    /// A fresh verify token for one connection: 16 random bytes. The pair
    /// keeps no token; every call gives another.
    pub fn verify_token(&self) -> (token: Vec<u8>)
        ensures
            token@.len() == VERIFY_TOKEN_LENGTH,
    {
        random_bytes(VERIFY_TOKEN_LENGTH)
    }
}

} // verus!
