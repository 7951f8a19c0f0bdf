//! Login success: the server tells the client its session identifier.

use crate::buffer::bytes_of;
use crate::net::error::{ServerError, ServerErrorView};
use crate::net::protocol::Packet;
use crate::varint::model::{encode_string, string_fits};
use crate::varint::utils::write_string;
use crate::varint::{VarIntError, VarIntErrorKind};
use bytes::BytesMut;
use vstd::prelude::*;
use vstd::utf8::{encode_utf8, is_ascii_chars, is_ascii_chars_encode_utf8};

verus! {

/// The character of a hexadecimal digit, in lower case.
pub open spec fn hex_digit(n: u128) -> char {
    if n == 0 {
        '0'
    } else if n == 1 {
        '1'
    } else if n == 2 {
        '2'
    } else if n == 3 {
        '3'
    } else if n == 4 {
        '4'
    } else if n == 5 {
        '5'
    } else if n == 6 {
        '6'
    } else if n == 7 {
        '7'
    } else if n == 8 {
        '8'
    } else if n == 9 {
        '9'
    } else if n == 10 {
        'a'
    } else if n == 11 {
        'b'
    } else if n == 12 {
        'c'
    } else if n == 13 {
        'd'
    } else if n == 14 {
        'e'
    } else {
        'f'
    }
}

/// Whether a character is a lower-case hexadecimal digit.
pub open spec fn is_hex_char(c: char) -> bool {
    ('0' <= c <= '9') || ('a' <= c <= 'f')
}

/// Whether a dash stands at this place of the hyphenated form.
pub open spec fn is_dash_place(i: int) -> bool {
    i == 8 || i == 13 || i == 18 || i == 23
}

/// The number of dashes in front of a place of the hyphenated form.
pub open spec fn dashes_before(i: int) -> int {
    if i < 8 {
        0
    } else if i < 13 {
        1
    } else if i < 18 {
        2
    } else if i < 23 {
        3
    } else {
        4
    }
}

/// The `k`-th of the 32 hexadecimal digits of an identifier, the most
/// significant first.
pub open spec fn hex_at(id: u128, k: int) -> u128 {
    (id >> (((31 - k) * 4) as u128)) & 0xf
}

/// The hyphenated form of a 128-bit identifier: 32 lower-case hexadecimal
/// digits in groups of 8, 4, 4, 4 and 12, with dashes between the groups.
pub open spec fn hyphenated(id: u128) -> Seq<char> {
    Seq::new(
        36,
        |i: int|
            if is_dash_place(i) {
                '-'
            } else {
                hex_digit(hex_at(id, i - dashes_before(i)))
            },
    )
}

/// Whether an identifier carries the marks of a random one: version 4 in its
/// 13th hexadecimal digit, and the two variant bits `10` at the top of its
/// 17th.
pub open spec fn is_random_id(id: u128) -> bool {
    (id >> 76) & 0xf == 4 && (id >> 62) & 0x3 == 2
}

/// The hyphenated form is well formed: 36 characters, dashes at their four
/// places, hexadecimal digits at all others. It is plain ASCII and so fits
/// any length field.
pub proof fn lemma_hyphenated_shape(id: u128)
    ensures
        hyphenated(id).len() == 36,
        forall|i: int|
            0 <= i < 36 ==> if is_dash_place(i) {
                #[trigger] hyphenated(id)[i] == '-'
            } else {
                is_hex_char(hyphenated(id)[i])
            },
        is_ascii_chars(hyphenated(id)),
        encode_utf8(hyphenated(id)).len() == 36,
        string_fits(hyphenated(id)),
{
    let text = hyphenated(id);
    assert forall|i: int| 0 <= i < 36 implies if is_dash_place(i) {
        #[trigger] text[i] == '-'
    } else {
        is_hex_char(text[i])
    } by {}
    assert(is_ascii_chars(text)) by {
        assert forall|i: int| 0 <= i < text.len() implies '\0' <= #[trigger] text[i] <= '\u{7f}' by {
            if !is_dash_place(i) {
                assert(is_hex_char(text[i]));
            }
        }
    }
    is_ascii_chars_encode_utf8(text);
}

/// `Uuid::new_v4`, as a 128-bit number: a fresh random identifier. Which one
/// is chance; the crate sets its version and variant marks.
#[verifier::external_body]
pub(crate) fn random_session_id() -> (id: u128)
    ensures
        is_random_id(id),
{
    uuid::Uuid::new_v4().as_u128()
}

/// `Uuid::hyphenated` and its `Display`: the hyphenated lower-case form of the
/// identifier with this 128-bit value.
#[verifier::external_body]
pub(crate) fn hyphenated_text(id: u128) -> (text: String)
    ensures
        text@ == hyphenated(id),
{
    uuid::Uuid::from_u128(id).hyphenated().to_string()
}

/// The last packet of the login phase. The server only ever sends it.
#[derive(Debug, Clone)]
pub struct LoginSuccess {
    /// The session identifier, as a 128-bit number.
    pub uuid: u128,
    pub username: String,
}

/// A `LoginSuccess` as contracts see it.
pub struct LoginSuccessView {
    pub uuid: u128,
    pub username: Seq<char>,
}

impl View for LoginSuccess {
    type V = LoginSuccessView;

    open spec fn view(&self) -> LoginSuccessView {
        LoginSuccessView { uuid: self.uuid, username: self.username@ }
    }
}

/// The error text for an attempt to read a login success.
pub open spec fn send_only_text() -> Seq<char> {
    "LoginSuccess はクライアントへの送信専用です"@
}

/// The bytes of a login success behind the packet id: the session identifier
/// in hyphenated form, then the user name.
pub open spec fn login_success_payload(packet: LoginSuccessView) -> Seq<u8> {
    encode_string(hyphenated(packet.uuid)) + encode_string(packet.username)
}

impl Packet for LoginSuccess {
    open spec fn id() -> i32 {
        0x02
    }

    open spec fn payload(&self) -> Result<Seq<u8>, ServerErrorView> {
        if string_fits(self.username@) {
            Ok(login_success_payload(self@))
        } else {
            Err(ServerErrorView::VarInt(VarIntErrorKind::ValueTooLarge))
        }
    }

    open spec fn parse(body: Seq<u8>) -> Result<(LoginSuccessView, nat), ServerErrorView> {
        Err(ServerErrorView::Protocol(send_only_text()))
    }

    fn packet_id(&self) -> (id: i32) {
        0x02
    }

    fn encode(&self, buf: &mut BytesMut) -> (done: Result<(), ServerError>) {
        if self.username.as_str().as_bytes().len() > i32::MAX as usize {
            return Err(ServerError::VarInt(VarIntError::ValueTooLarge));
        }
        let id = hyphenated_text(self.uuid);
        proof {
            lemma_hyphenated_shape(self.uuid);
        }
        let _ = write_string(buf, id.as_str());
        let _ = write_string(buf, self.username.as_str());
        proof {
            assert(bytes_of(*buf) =~= bytes_of(*old(buf)) + login_success_payload(self@));
        }
        Ok(())
    }

    fn decode(_buf: &mut BytesMut) -> (packet: Result<LoginSuccess, ServerError>) {
        Err(ServerError::Protocol("LoginSuccess はクライアントへの送信専用です".to_owned()))
    }
}

} // verus!
