//! The network side: errors, packets, frames and the connection state machine.

pub mod connection;
pub mod error;
pub mod flows;
pub mod login;
pub mod protocol;
pub mod server;
pub mod status;
