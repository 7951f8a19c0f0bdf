//! Login start: the client names its player.

use crate::net::error::{ServerError, ServerErrorView};
use crate::net::protocol::Packet;
use crate::varint::model::{decode_string, encode_string, string_fits, Parsed};
use crate::varint::utils::{read_string, write_string};
use crate::varint::VarIntErrorKind;
use bytes::BytesMut;
use vstd::prelude::*;

verus! {

/// The first packet of the login phase.
#[derive(Debug, Clone)]
pub struct LoginStart {
    pub username: String,
}

/// A `LoginStart` as contracts see it.
pub struct LoginStartView {
    pub username: Seq<char>,
}

impl View for LoginStart {
    type V = LoginStartView;

    open spec fn view(&self) -> LoginStartView {
        LoginStartView { username: self.username@ }
    }
}

/// The error text for a payload that holds no user name.
pub open spec fn bad_username_text() -> Seq<char> {
    "ユーザー名の読み込みに失敗"@
}

impl Packet for LoginStart {
    open spec fn id() -> i32 {
        0x00
    }

    open spec fn payload(&self) -> Result<Seq<u8>, ServerErrorView> {
        if string_fits(self.username@) {
            Ok(encode_string(self.username@))
        } else {
            Err(ServerErrorView::VarInt(VarIntErrorKind::ValueTooLarge))
        }
    }

    open spec fn parse(body: Seq<u8>) -> Result<(LoginStartView, nat), ServerErrorView> {
        match decode_string(body) {
            Parsed::Complete { value, len } => Ok((LoginStartView { username: value }, len)),
            _ => Err(ServerErrorView::Protocol(bad_username_text())),
        }
    }

    fn packet_id(&self) -> (id: i32) {
        0x00
    }

    fn encode(&self, buf: &mut BytesMut) -> (done: Result<(), ServerError>) {
        match write_string(buf, self.username.as_str()) {
            Ok(()) => Ok(()),
            Err(error) => Err(ServerError::VarInt(error)),
        }
    }

    fn decode(buf: &mut BytesMut) -> (packet: Result<LoginStart, ServerError>) {
        match read_string(buf) {
            Ok(Some(username)) => Ok(LoginStart { username }),
            _ => Err(ServerError::Protocol("ユーザー名の読み込みに失敗".to_owned())),
        }
    }
}

} // verus!
