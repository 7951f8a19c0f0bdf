//! The optional key exchange of the login phase.

pub mod key;
pub mod request;
pub mod response;

pub use key::EncryptionKeyPair;
pub use request::EncryptionRequest;
pub use response::EncryptionResponse;
