//! A wire-protocol engine for a game-server handshake: a variable-length
//! integer codec, a length-prefixed frame codec built on it, the packets of the
//! handshake, status and login phases, and the state machine that walks one
//! connection through them.

pub mod buffer;
pub mod fixed;
pub mod net;
pub mod text;
pub mod utils;
pub mod varint;

pub use net::error::ServerError;
pub use utils::config::ServerConfig;
