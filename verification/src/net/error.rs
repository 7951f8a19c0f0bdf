//! The errors that end a connection, and how the smaller errors become them.

use crate::varint::{var_int_error_text, VarIntError, VarIntErrorKind};
use std::string::FromUtf8Error;
use vstd::prelude::*;
use vstd::std_specs::convert::FromSpecImpl;

verus! {

/// Why a connection, or the server's start, failed.
#[derive(Debug)]
pub enum ServerError {
    /// The transport failed. Fatal to the connection that owns it.
    Io(std::io::Error),
    /// A malformed, out-of-order or oversized packet.
    Protocol(String),
    /// An integer or a string could not be written or read.
    VarInt(VarIntError),
    /// The settings cannot be used.
    Config(String),
}

/// A `ServerError` as contracts see it: texts by their characters, and of a
/// transport error only that it is one.
pub enum ServerErrorView {
    Io,
    Protocol(Seq<char>),
    VarInt(VarIntErrorKind),
    Config(Seq<char>),
}

impl View for ServerError {
    type V = ServerErrorView;

    open spec fn view(&self) -> ServerErrorView {
        match self {
            ServerError::Io(_) => ServerErrorView::Io,
            ServerError::Protocol(text) => ServerErrorView::Protocol(text@),
            ServerError::VarInt(e) => ServerErrorView::VarInt(e@),
            ServerError::Config(text) => ServerErrorView::Config(text@),
        }
    }
}

/// The text of an error, for the errors whose text the library decides.
pub open spec fn server_error_text(error: ServerErrorView) -> Seq<char> {
    match error {
        ServerErrorView::Io => "IO error: "@,
        ServerErrorView::Protocol(text) => "Protocol error: "@ + text,
        ServerErrorView::VarInt(kind) => "VarInt error: "@ + var_int_error_text(kind),
        ServerErrorView::Config(text) => "Configuration error: "@ + text,
    }
}

impl ServerError {
    /// The error as a line of text for a log. The line of a transport error
    /// ends in what the operating system says of it.
    pub fn message(&self) -> (text: String)
        ensures
            self@ != ServerErrorView::Io && self@ != ServerErrorView::VarInt(VarIntErrorKind::Io)
                ==> text@ == server_error_text(self@),
    {
        match self {
            ServerError::Io(e) => io_error_line("IO error: ", e),
            ServerError::Protocol(text) => "Protocol error: ".to_owned().concat(text.as_str()),
            ServerError::VarInt(e) => "VarInt error: ".to_owned().concat(e.message().as_str()),
            ServerError::Config(text) => "Configuration error: ".to_owned().concat(text.as_str()),
        }
    }
}

/// `Display` of `std::io::Error` behind a prefix. What the text says depends
/// on the operating system, so nothing is claimed of it.
#[verifier::external_body]
pub(crate) fn io_error_line(prefix: &str, error: &std::io::Error) -> (line: String) {
    format!("{}{}", prefix, error)
}

impl From<std::io::Error> for ServerError {
    fn from(error: std::io::Error) -> (e: Self) {
        ServerError::Io(error)
    }
}

impl FromSpecImpl<std::io::Error> for ServerError {
    open spec fn obeys_from_spec() -> bool {
        true
    }

    open spec fn from_spec(error: std::io::Error) -> Self {
        ServerError::Io(error)
    }
}

impl From<VarIntError> for ServerError {
    fn from(error: VarIntError) -> (e: Self) {
        ServerError::VarInt(error)
    }
}

impl FromSpecImpl<VarIntError> for ServerError {
    open spec fn obeys_from_spec() -> bool {
        true
    }

    open spec fn from_spec(error: VarIntError) -> Self {
        ServerError::VarInt(error)
    }
}

impl From<String> for ServerError {
    fn from(error: String) -> (e: Self) {
        ServerError::Protocol(error)
    }
}

impl FromSpecImpl<String> for ServerError {
    open spec fn obeys_from_spec() -> bool {
        true
    }

    open spec fn from_spec(error: String) -> Self {
        ServerError::Protocol(error)
    }
}

impl<'a> From<&'a str> for ServerError {
    fn from(error: &'a str) -> (e: Self)
        ensures
            e@ == ServerErrorView::Protocol(error@),
    {
        ServerError::Protocol(error.to_owned())
    }
}

impl<'a> FromSpecImpl<&'a str> for ServerError {
    /// The result is described by its view, in the contract of `from`.
    open spec fn obeys_from_spec() -> bool {
        false
    }

    open spec fn from_spec(error: &'a str) -> Self {
        arbitrary()
    }
}

impl From<FromUtf8Error> for ServerError {
    fn from(error: FromUtf8Error) -> (e: Self)
        ensures
            e@ == ServerErrorView::Protocol("Invalid UTF-8 encoding"@),
    {
        ServerError::Protocol("Invalid UTF-8 encoding".to_owned())
    }
}

impl FromSpecImpl<FromUtf8Error> for ServerError {
    /// The result is described by its view, in the contract of `from`.
    open spec fn obeys_from_spec() -> bool {
        false
    }

    open spec fn from_spec(error: FromUtf8Error) -> Self {
        arbitrary()
    }
}

} // verus!
