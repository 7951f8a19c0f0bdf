//! Login disconnect: the server turns a client away with a reason.

use crate::net::error::{ServerError, ServerErrorView};
use crate::net::protocol::Packet;
use crate::varint::model::{encode_string, string_fits};
use crate::varint::utils::write_string;
use crate::varint::VarIntErrorKind;
use bytes::BytesMut;
use vstd::prelude::*;

verus! {

/// A refusal, with its reason as JSON text. The server only ever sends it.
#[derive(Debug, Clone)]
pub struct LoginDisconnect {
    pub reason_json: String,
}

/// A `LoginDisconnect` as contracts see it.
pub struct LoginDisconnectView {
    pub reason_json: Seq<char>,
}

impl View for LoginDisconnect {
    type V = LoginDisconnectView;

    open spec fn view(&self) -> LoginDisconnectView {
        LoginDisconnectView { reason_json: self.reason_json@ }
    }
}

/// The error text for an attempt to read a disconnect.
pub open spec fn send_only_text() -> Seq<char> {
    "LoginDisconnect は送信用のみです"@
}

impl Packet for LoginDisconnect {
    open spec fn id() -> i32 {
        0x00
    }

    open spec fn payload(&self) -> Result<Seq<u8>, ServerErrorView> {
        if string_fits(self.reason_json@) {
            Ok(encode_string(self.reason_json@))
        } else {
            Err(ServerErrorView::VarInt(VarIntErrorKind::ValueTooLarge))
        }
    }

    open spec fn parse(body: Seq<u8>) -> Result<(LoginDisconnectView, nat), ServerErrorView> {
        Err(ServerErrorView::Protocol(send_only_text()))
    }

    fn packet_id(&self) -> (id: i32) {
        0x00
    }

    fn encode(&self, buf: &mut BytesMut) -> (done: Result<(), ServerError>) {
        match write_string(buf, self.reason_json.as_str()) {
            Ok(()) => Ok(()),
            Err(error) => Err(ServerError::VarInt(error)),
        }
    }

    fn decode(_buf: &mut BytesMut) -> (packet: Result<Self, ServerError>) {
        Err(ServerError::Protocol("LoginDisconnect は送信用のみです".to_owned()))
    }
}

} // verus!
