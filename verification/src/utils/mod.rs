//! Settings of the server and of its codecs.

pub mod config;
pub mod varint;
