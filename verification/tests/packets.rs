use bytes::BytesMut;
use rsa::pkcs8::{DecodePublicKey, EncodePublicKey};
use rsa::{Pkcs1v15Encrypt, RsaPublicKey};
use test_server::fixed::{be_decode, be_encode};
use test_server::net::error::ServerError;
use test_server::net::login::encryption::response::same_bytes;
use test_server::net::login::encryption::{
    EncryptionKeyPair, EncryptionRequest, EncryptionResponse,
};
use test_server::net::login::{LoginDisconnect, LoginStart, LoginSuccess};
use test_server::net::protocol::codec::PacketCodec;
use test_server::net::protocol::handshake::HandshakePacket;
use test_server::net::protocol::{Packet, PacketError, PacketState};
use test_server::net::server::ConnectionSupervisor;
use test_server::net::status::{assemble_status, Ping, StatusInfo, StatusResponse};
use test_server::text::format_decimal;
use test_server::utils::config::{MetricsConfig, ServerConfig, VarIntConfig};
use test_server::varint::utils::{encode_varint, write_string, write_varint};
use test_server::varint::VarIntError;

fn protocol_text(error: ServerError) -> String {
    match error {
        ServerError::Protocol(text) => text,
        other => panic!("not a protocol error: {:?}", other),
    }
}

fn handshake_bytes(version: i32, address: &str, port: u16, next: i32) -> Vec<u8> {
    let mut bytes = encode_varint(version);
    bytes.extend_from_slice(&encode_varint(address.len() as i32));
    bytes.extend_from_slice(address.as_bytes());
    bytes.extend_from_slice(&port.to_be_bytes());
    bytes.extend_from_slice(&encode_varint(next));
    bytes
}

#[test]
fn test_handshake_packet() {
    let original_packet = HandshakePacket {
        protocol_version: 754,
        server_address: "localhost".to_string(),
        server_port: 25565,
        next_state: PacketState::Login,
    };

    let mut buf = BytesMut::new();
    let codec = PacketCodec::new(1024);

    codec.encode_packet(&original_packet, &mut buf).unwrap();

    let decoded_packet = codec.decode_packet::<HandshakePacket>(&mut buf).unwrap().unwrap();

    assert_eq!(decoded_packet.protocol_version, original_packet.protocol_version);
    assert_eq!(decoded_packet.server_address, original_packet.server_address);
    assert_eq!(decoded_packet.server_port, original_packet.server_port);
    assert_eq!(decoded_packet.next_state, original_packet.next_state);
}

#[test]
fn handshake_bytes_of_a_known_packet() {
    let packet = HandshakePacket {
        protocol_version: 754,
        server_address: "localhost".to_string(),
        server_port: 25565,
        next_state: PacketState::Status,
    };
    assert_eq!(packet.packet_id(), 0x00);
    let mut payload = BytesMut::new();
    packet.encode(&mut payload).unwrap();
    let expected: Vec<u8> = vec![
        0xF2, 0x05, 0x09, b'l', b'o', b'c', b'a', b'l', b'h', b'o', b's', b't', 0x63, 0xDD, 0x01,
    ];
    assert_eq!(&payload[..], &expected[..]);
    assert_eq!(expected, handshake_bytes(754, "localhost", 25565, 1));

    let mut framed = BytesMut::new();
    PacketCodec::new(1024).encode_packet(&packet, &mut framed).unwrap();
    let mut whole = vec![0x10, 0x00];
    whole.extend_from_slice(&expected);
    assert_eq!(&framed[..], &whole[..]);
}

#[test]
fn handshake_reader_leaves_what_follows() {
    let mut bytes = handshake_bytes(-1, "\u{4e16}\u{754c}", 0xABCD, 1);
    bytes.extend_from_slice(&[0x55, 0x66]);
    let mut buf = BytesMut::from(&bytes[..]);
    let packet = HandshakePacket::decode(&mut buf).unwrap();
    assert_eq!(packet.protocol_version, -1);
    assert_eq!(packet.server_address, "\u{4e16}\u{754c}");
    assert_eq!(packet.server_port, 0xABCD);
    assert_eq!(packet.next_state, PacketState::Status);
    assert_eq!(&buf[..], &[0x55, 0x66]);
}

#[test]
fn handshake_reader_names_the_field_that_fails() {
    let cases: Vec<(Vec<u8>, &str)> = vec![
        (vec![], "プロトコルバージョンの読み取りに失敗"),
        (vec![0x80, 0x80, 0x80, 0x80, 0x80], "プロトコルバージョンの読み取りに失敗"),
        (vec![0x01], "アドレス長の読み取りに失敗"),
        (vec![0x01, 0x85], "アドレス長の読み取りに失敗"),
        (vec![0x01, 0x03, b'a', b'b'], "パケットデータが不完全"),
        (vec![0x01, 0xFF, 0xFF, 0xFF, 0xFF, 0x0F, b'a'], "パケットデータが不完全"),
        (vec![0x01, 0x02, 0xC3, 0x28, 0x00, 0x01, 0x01], "不正なUTF-8シーケンス"),
        (vec![0x01, 0x01, b'a', 0x63], "パケットデータが不完全"),
        (vec![0x01, 0x01, b'a', 0x63, 0xDD], "次の状態の読み取りに失敗"),
        (vec![0x01, 0x01, b'a', 0x63, 0xDD, 0x80], "次の状態の読み取りに失敗"),
        (vec![0x01, 0x01, b'a', 0x63, 0xDD, 0x04], "不正な次の状態"),
        (vec![0x01, 0x01, b'a', 0x63, 0xDD, 0x00], "不正な次の状態"),
        (vec![0x01, 0x01, b'a', 0x63, 0xDD, 0x03], "不正な次の状態"),
        (handshake_bytes(754, "localhost", 25565, 3), "不正な次の状態"),
        (handshake_bytes(754, "localhost", 25565, 0), "不正な次の状態"),
        (vec![0x01, 0x01, b'a', 0x63, 0xDD, 0xFF, 0xFF, 0xFF, 0xFF, 0x0F], "不正な次の状態"),
    ];
    for (bytes, text) in cases {
        let mut buf = BytesMut::from(&bytes[..]);
        let error = HandshakePacket::decode(&mut buf).unwrap_err();
        assert_eq!(protocol_text(error), text);
        assert_eq!(&buf[..], &bytes[..]);
    }
}

#[test]
fn handshake_asks_for_status_or_login_only() {
    let codec = PacketCodec::new(1024);
    for (next, expected) in [(1, PacketState::Status), (2, PacketState::Login)] {
        let mut buf = BytesMut::from(&handshake_bytes(754, "localhost", 25565, next)[..]);
        assert_eq!(HandshakePacket::decode(&mut buf).unwrap().next_state, expected);
        assert!(buf.is_empty());
    }
    let play: [u8; 15] = [
        0xF2, 0x05, 0x09, 0x6C, 0x6F, 0x63, 0x61, 0x6C, 0x68, 0x6F, 0x73, 0x74, 0x63, 0xDD, 0x03,
    ];
    let mut buf = BytesMut::from(&play[..]);
    assert!(matches!(HandshakePacket::decode(&mut buf), Err(ServerError::Protocol(_))));
    assert_eq!(&buf[..], &play[..]);

    for next_state in [PacketState::Handshake, PacketState::Play] {
        let packet = HandshakePacket {
            protocol_version: 754,
            server_address: "localhost".to_string(),
            server_port: 25565,
            next_state,
        };
        let mut framed = BytesMut::new();
        codec.encode_packet(&packet, &mut framed).unwrap();
        let error = codec.decode_packet::<HandshakePacket>(&mut framed).err().unwrap();
        assert_eq!(protocol_text(error), "不正な次の状態");
    }
}

#[test]
fn phases_and_their_numbers() {
    assert_eq!(PacketState::from_i32(0), Some(PacketState::Handshake));
    assert_eq!(PacketState::from_i32(1), Some(PacketState::Status));
    assert_eq!(PacketState::from_i32(2), Some(PacketState::Login));
    assert_eq!(PacketState::from_i32(3), Some(PacketState::Play));
    assert_eq!(PacketState::from_i32(4), None);
    assert_eq!(PacketState::from_i32(-1), None);
    for state in [
        PacketState::Handshake,
        PacketState::Status,
        PacketState::Login,
        PacketState::Play,
    ] {
        assert_eq!(PacketState::from_i32(state.to_i32()), Some(state));
    }
    assert_eq!(PacketState::Login.to_i32(), 2);
}

#[test]
fn frame_of_a_known_body() {
    let codec = PacketCodec::new(1024);
    assert_eq!(codec.max_packet_size(), 1024);
    let mut buf = BytesMut::from(&[0xEE][..]);
    codec.encode_frame(0x01, &[0xAA, 0xBB], &mut buf).unwrap();
    assert_eq!(&buf[..], &[0xEE, 0x03, 0x01, 0xAA, 0xBB]);

    let mut long = BytesMut::new();
    codec.encode_frame(300, &[0x07; 200], &mut long).unwrap();
    assert_eq!(&long[..4], &[0xCA, 0x01, 0xAC, 0x02]);
    assert_eq!(long.len(), 2 + 2 + 200);
}

#[test]
fn frame_writer_refuses_what_is_too_long() {
    let codec = PacketCodec::new(4);
    let mut buf = BytesMut::from(&[0xEE][..]);
    codec.encode_frame(0x01, &[1, 2, 3], &mut buf).unwrap();
    assert_eq!(&buf[..], &[0xEE, 0x04, 0x01, 1, 2, 3]);
    let error = codec.encode_frame(0x01, &[1, 2, 3, 4], &mut buf).unwrap_err();
    assert_eq!(protocol_text(error), "パケットが大きすぎます");
    assert_eq!(buf.len(), 6);
    let error = codec.encode_frame(300, &[1, 2, 3], &mut buf).unwrap_err();
    assert_eq!(protocol_text(error), "パケットが大きすぎます");
    assert_eq!(buf.len(), 6);

    let packet = LoginStart { username: "Alice".to_string() };
    let error = codec.encode_packet(&packet, &mut buf).unwrap_err();
    assert_eq!(protocol_text(error), "パケットが大きすぎます");
    assert_eq!(buf.len(), 6);
}

#[test]
fn frame_reader_waits_at_every_boundary() {
    let codec = PacketCodec::new(1024);
    let mut whole = BytesMut::new();
    codec.encode_frame(0x00, &[0x07; 200], &mut whole).unwrap();
    let whole = whole.to_vec();
    assert_eq!(whole.len(), 2 + 1 + 200);

    for cut in 0..whole.len() {
        let mut buf = BytesMut::from(&whole[..cut]);
        assert!(matches!(codec.decode_frame(&mut buf), Ok(None)));
        assert_eq!(&buf[..], &whole[..cut]);

        buf.extend_from_slice(&whole[cut..]);
        let body = codec.decode_frame(&mut buf).unwrap().expect("the frame is whole");
        assert_eq!(&body[..], &whole[2..]);
        assert!(buf.is_empty());
        assert!(matches!(codec.decode_frame(&mut buf), Ok(None)));
    }
}

#[test]
fn frame_reader_leaves_the_next_frame() {
    let codec = PacketCodec::new(1024);
    let mut buf = BytesMut::new();
    codec.encode_frame(0x00, &[1, 2, 3], &mut buf).unwrap();
    codec.encode_frame(0x01, &[4, 5], &mut buf).unwrap();
    buf.extend_from_slice(&[0x09]);
    let first = codec.decode_frame(&mut buf).unwrap().unwrap();
    assert_eq!(&first[..], &[0x00, 1, 2, 3]);
    let second = codec.decode_frame(&mut buf).unwrap().unwrap();
    assert_eq!(&second[..], &[0x01, 4, 5]);
    assert!(matches!(codec.decode_frame(&mut buf), Ok(None)));
    assert_eq!(&buf[..], &[0x09]);
}

#[test]
fn frame_reader_refuses_oversized_frames() {
    let codec = PacketCodec::new(16);
    let mut buf = BytesMut::from(&[0x11, 0x00, 0x01][..]);
    let error = codec.decode_frame(&mut buf).unwrap_err();
    assert_eq!(protocol_text(error), "パケットが大きすぎます");
    assert_eq!(&buf[..], &[0x00, 0x01]);

    let mut exact = BytesMut::from(&[0x10, 0x00][..]);
    assert!(matches!(codec.decode_frame(&mut exact), Ok(None)));
    assert_eq!(exact.len(), 2);

    let mut negative = BytesMut::from(&[0xFF, 0xFF, 0xFF, 0xFF, 0x0F, 0x00][..]);
    let error = codec.decode_packet::<LoginStart>(&mut negative).unwrap_err();
    assert_eq!(protocol_text(error), "パケットが大きすぎます");
    assert_eq!(&negative[..], &[0x00]);
}

#[test]
fn frame_reader_refuses_a_length_that_is_no_number() {
    let codec = PacketCodec::new(16);
    let mut buf = BytesMut::from(&[0x80, 0x80, 0x80, 0x80, 0x80, 0x00][..]);
    let error = codec.decode_frame(&mut buf).unwrap_err();
    assert_eq!(protocol_text(error), "Invalid packet length");
    assert_eq!(buf.len(), 6);
}

#[test]
fn packet_reader_reports_the_packets_error() {
    let codec = PacketCodec::new(64);
    let mut buf = BytesMut::from(&[0x02, 0x01, 0xFF, 0x07][..]);
    let error = codec.decode_packet::<LoginStart>(&mut buf).unwrap_err();
    assert_eq!(protocol_text(error), "ユーザー名の読み込みに失敗");
    assert_eq!(&buf[..], &[0x07]);
}

#[test]
fn packet_reader_checks_the_packet_id() {
    let codec = PacketCodec::new(64);
    let mut buf = BytesMut::new();
    codec.encode_frame(0x00, &[0x03, b'B', b'o', b'b', 0x55], &mut buf).unwrap();
    let packet = codec.decode_packet::<LoginStart>(&mut buf).unwrap().unwrap();
    assert_eq!(packet.username, "Bob");
    assert!(buf.is_empty());

    codec.encode_frame(0x07, &[0x03, b'B', b'o', b'b'], &mut buf).unwrap();
    let error = codec.decode_packet::<LoginStart>(&mut buf).unwrap_err();
    assert_eq!(protocol_text(error), "無効なパケットID: 7");
    assert!(buf.is_empty());

    let mut empty_body = BytesMut::from(&[0x00, 0x01][..]);
    let error = codec.decode_packet::<LoginStart>(&mut empty_body).unwrap_err();
    assert_eq!(protocol_text(error), "Invalid packet ID");
    assert_eq!(&empty_body[..], &[0x01]);

    let mut waiting = BytesMut::from(&[0x05, 0x00][..]);
    assert!(matches!(codec.decode_packet::<LoginStart>(&mut waiting), Ok(None)));
    assert_eq!(waiting.len(), 2);
}

#[test]
fn login_start_round_trip() {
    let packet = LoginStart { username: "Alice".to_string() };
    assert_eq!(packet.packet_id(), 0x00);
    let mut buf = BytesMut::new();
    packet.encode(&mut buf).unwrap();
    assert_eq!(&buf[..], &[0x05, b'A', b'l', b'i', b'c', b'e']);
    buf.extend_from_slice(&[0x01]);
    let decoded = LoginStart::decode(&mut buf).unwrap();
    assert_eq!(decoded.username, "Alice");
    assert_eq!(&buf[..], &[0x01]);

    let mut short = BytesMut::from(&[0x05, b'A'][..]);
    let error = LoginStart::decode(&mut short).unwrap_err();
    assert_eq!(protocol_text(error), "ユーザー名の読み込みに失敗");
    assert_eq!(short.len(), 2);
}

#[test]
fn login_start_of_the_protocol_layer() {
    let packet = test_server::net::protocol::login::LoginStart { username: "Bob".to_string() };
    assert_eq!(packet.packet_id(), 0x00);
    let mut buf = BytesMut::new();
    packet.encode(&mut buf).unwrap();
    assert_eq!(&buf[..], &[0x03, b'B', b'o', b'b']);
    let decoded = test_server::net::protocol::login::LoginStart::decode(&mut buf).unwrap();
    assert_eq!(decoded.username, "Bob");
    let mut empty = BytesMut::new();
    let error = test_server::net::protocol::login::LoginStart::decode(&mut empty).err().unwrap();
    assert_eq!(protocol_text(error), "ユーザー名読み込み失敗");
}

#[test]
fn login_success_carries_the_hyphenated_identifier() {
    let packet = LoginSuccess {
        uuid: 0xa1a2a3a4_b1b2_c1c2_d1d2_d3d4d5d6d7d8,
        username: "Alice".to_string(),
    };
    assert_eq!(packet.packet_id(), 0x02);
    let mut buf = BytesMut::new();
    packet.encode(&mut buf).unwrap();
    let mut expected = BytesMut::new();
    write_string(&mut expected, "a1a2a3a4-b1b2-c1c2-d1d2-d3d4d5d6d7d8").unwrap();
    write_string(&mut expected, "Alice").unwrap();
    assert_eq!(&buf[..], &expected[..]);
    assert_eq!(buf[0], 36);

    let low = LoginSuccess { uuid: 0x0123_4567_89ab_cdef, username: String::new() };
    let mut buf = BytesMut::new();
    low.encode(&mut buf).unwrap();
    assert_eq!(&buf[1..37], b"00000000-0000-0000-0123-456789abcdef");

    let error = LoginSuccess::decode(&mut buf).unwrap_err();
    assert_eq!(protocol_text(error), "LoginSuccess はクライアントへの送信専用です");
}

#[test]
fn identifier_text_follows_the_formula() {
    let mut id: u128 = 0x0123_4567_89ab_cdef_0f1e_2d3c_4b5a_6978;
    for _ in 0..200 {
        id = id.wrapping_mul(0x2545_F491_4F6C_DD1D_0000_0000_0000_0001).wrapping_add(0x9E37);
        let mut expected = String::new();
        for k in 0..32 {
            if k == 8 || k == 12 || k == 16 || k == 20 {
                expected.push('-');
            }
            let digit = ((id >> ((31 - k) * 4)) & 0xF) as u32;
            expected.push(std::char::from_digit(digit, 16).unwrap());
        }
        let mut buf = BytesMut::new();
        LoginSuccess { uuid: id, username: String::new() }.encode(&mut buf).unwrap();
        assert_eq!(buf[0], 36);
        assert_eq!(&buf[1..37], expected.as_bytes());
        assert_eq!(&buf[37..], &[0x00]);
    }
}

#[test]
fn login_disconnect_is_sent_only() {
    let packet = LoginDisconnect { reason_json: "{\"text\":\"bye\"}".to_string() };
    assert_eq!(packet.packet_id(), 0x00);
    let mut buf = BytesMut::new();
    packet.encode(&mut buf).unwrap();
    assert_eq!(buf[0], 14);
    assert_eq!(&buf[1..], b"{\"text\":\"bye\"}");
    let before = buf.len();
    let error = LoginDisconnect::decode(&mut buf).unwrap_err();
    assert_eq!(protocol_text(error), "LoginDisconnect は送信用のみです");
    assert_eq!(buf.len(), before);
}

#[test]
fn encryption_request_bytes() {
    let packet = EncryptionRequest {
        server_id: "id".to_string(),
        public_key: vec![0x30, 0x31, 0x32],
        verify_token: vec![9, 8, 7, 6],
    };
    assert_eq!(packet.packet_id(), 0x01);
    let mut buf = BytesMut::new();
    packet.encode(&mut buf).unwrap();
    assert_eq!(&buf[..], &[0x02, b'i', b'd', 0x03, 0x30, 0x31, 0x32, 0x04, 9, 8, 7, 6]);
    let error = EncryptionRequest::decode(&mut buf).unwrap_err();
    assert_eq!(protocol_text(error), "EncryptionRequest は送信用専用です");
    assert_eq!(buf.len(), 12);
}

#[test]
fn encryption_response_is_received_only() {
    let packet = EncryptionResponse { shared_secret: vec![1], verify_token: vec![2] };
    assert_eq!(packet.packet_id(), 0x01);
    let mut buf = BytesMut::new();
    let error = packet.encode(&mut buf).unwrap_err();
    assert_eq!(protocol_text(error), "EncryptionResponse は受信用専用です");
    assert!(buf.is_empty());
    let mut body = BytesMut::from(&[0x01, 0xAA, 0x01, 0xBB][..]);
    let error = EncryptionResponse::decode(&mut body).unwrap_err();
    assert_eq!(protocol_text(error), "decode_with_key を使用してください");
    assert_eq!(body.len(), 4);
}

#[test]
fn encrypted_fields_are_split() {
    let mut buf = BytesMut::from(&[0x02, 0xA1, 0xA2, 0x03, 0xB1, 0xB2, 0xB3, 0x77][..]);
    let fields = EncryptionResponse::read_encrypted(&mut buf).unwrap();
    assert_eq!(fields.shared_secret, vec![0xA1, 0xA2]);
    assert_eq!(fields.verify_token, vec![0xB1, 0xB2, 0xB3]);
    assert_eq!(&buf[..], &[0x77]);

    let cases: Vec<(Vec<u8>, &str)> = vec![
        (vec![], "デコードエラー: shared_secretの長さ読み込み失敗"),
        (vec![0x02, 0xA1], "パケットデータが不完全"),
        (vec![0xFF, 0xFF, 0xFF, 0xFF, 0x0F], "パケットデータが不完全"),
        (vec![0x01, 0xA1], "デコードエラー: verify_tokenの長さ読み込み失敗"),
        (vec![0x01, 0xA1, 0x02, 0xB1], "パケットデータが不完全"),
    ];
    for (bytes, text) in cases {
        let mut buf = BytesMut::from(&bytes[..]);
        let error = EncryptionResponse::read_encrypted(&mut buf).unwrap_err();
        assert_eq!(error.message(), text);
        assert_eq!(&buf[..], &bytes[..]);
    }
}

#[test]
fn response_of_two_decryptions() {
    let response = EncryptionResponse::from_decrypted(Some(vec![1, 2]), Some(vec![3])).unwrap();
    assert_eq!(response.shared_secret, vec![1, 2]);
    assert_eq!(response.verify_token, vec![3]);
    assert!(response.token_matches(&[3]));
    assert!(!response.token_matches(&[4]));
    assert!(!response.token_matches(&[3, 0]));
    assert!(!response.token_matches(&[]));

    let error = EncryptionResponse::from_decrypted(None, Some(vec![3])).unwrap_err();
    assert_eq!(error.message(), "デコードエラー: shared_secret復号失敗");
    let error = EncryptionResponse::from_decrypted(None, None).unwrap_err();
    assert_eq!(error.message(), "デコードエラー: shared_secret復号失敗");
    let error = EncryptionResponse::from_decrypted(Some(vec![1]), None).unwrap_err();
    assert_eq!(error.message(), "デコードエラー: verify_token復号失敗");
}

#[test]
fn outcome_of_one_decryption() {
    assert_eq!(EncryptionResponse::plain_of(Ok(vec![1, 2, 3])), Some(vec![1, 2, 3]));
    assert_eq!(EncryptionResponse::plain_of(Ok(Vec::new())), Some(Vec::new()));
    assert_eq!(EncryptionResponse::plain_of(Err(rsa::Error::Decryption)), None);
    assert_eq!(EncryptionResponse::plain_of(Err(rsa::Error::Internal)), None);
}

#[test]
fn bytes_are_compared_whole() {
    assert!(same_bytes(&[], &[]));
    assert!(same_bytes(&[1, 2, 3], &[1, 2, 3]));
    assert!(!same_bytes(&[1, 2, 3], &[1, 2, 4]));
    assert!(!same_bytes(&[1, 2, 3], &[1, 2]));
    assert!(!same_bytes(&[0, 2, 3], &[1, 2, 3]));
}

#[test]
fn key_pair_decrypts_what_its_public_key_encrypted() {
    let keys = EncryptionKeyPair::generate(512).unwrap();
    let der = keys.public_key_der();
    assert_eq!(der, keys.public_key_der());
    let public = RsaPublicKey::from_public_key_der(&der).unwrap();
    let mut rng = rand::thread_rng();
    let secret: Vec<u8> = (0u8..16).collect();
    let token = keys.verify_token();
    assert_eq!(token.len(), 16);
    assert_ne!(token, keys.verify_token());
    let encrypted_secret = public.encrypt(&mut rng, Pkcs1v15Encrypt, &secret).unwrap();
    let encrypted_token = public.encrypt(&mut rng, Pkcs1v15Encrypt, &token).unwrap();

    let mut buf = BytesMut::new();
    write_varint(&mut buf, encrypted_secret.len() as i32).unwrap();
    buf.extend_from_slice(&encrypted_secret);
    write_varint(&mut buf, encrypted_token.len() as i32).unwrap();
    buf.extend_from_slice(&encrypted_token);
    buf.extend_from_slice(&[0x42]);

    let response = EncryptionResponse::decode_with_key(&mut buf, keys.private_key()).unwrap();
    assert_eq!(response.shared_secret, secret);
    assert_eq!(response.verify_token, token);
    assert!(response.token_matches(&token));
    assert_eq!(&buf[..], &[0x42]);

    let mut garbage = BytesMut::from(&[0x02, 0x01, 0x02, 0x01, 0x03][..]);
    let error = EncryptionResponse::decode_with_key(&mut garbage, keys.private_key()).unwrap_err();
    assert_eq!(error.message(), "デコードエラー: shared_secret復号失敗");
    assert!(garbage.is_empty());

    let mut half = BytesMut::new();
    write_varint(&mut half, encrypted_secret.len() as i32).unwrap();
    half.extend_from_slice(&encrypted_secret);
    half.extend_from_slice(&[0x01, 0x00]);
    let error = EncryptionResponse::decode_with_key(&mut half, keys.private_key()).unwrap_err();
    assert_eq!(error.message(), "デコードエラー: verify_token復号失敗");

    let request = EncryptionRequest::from_keypair(&keys, &token);
    assert_eq!(request.server_id, "");
    assert_eq!(request.public_key, der);
    assert_eq!(request.verify_token, token);

    let other = EncryptionKeyPair::generate(512).unwrap();
    assert_ne!(other.public_key_der(), der);
    let mut foreign = BytesMut::new();
    write_varint(&mut foreign, encrypted_secret.len() as i32).unwrap();
    foreign.extend_from_slice(&encrypted_secret);
    write_varint(&mut foreign, encrypted_token.len() as i32).unwrap();
    foreign.extend_from_slice(&encrypted_token);
    let error = EncryptionResponse::decode_with_key(&mut foreign, other.private_key()).unwrap_err();
    assert_eq!(error.message(), "デコードエラー: shared_secret復号失敗");
}

#[test]
fn key_pair_of_an_existing_key() {
    let key = rsa::RsaPrivateKey::new(&mut rand::thread_rng(), 512).unwrap();
    let expected = RsaPublicKey::from(&key).to_public_key_der().unwrap().into_vec();
    let pair = EncryptionKeyPair::from_private_key(key.clone()).unwrap();
    assert_eq!(pair.public_key_der(), expected);
    assert_eq!(pair.private_key(), &key);
}

#[test]
fn key_that_cannot_be_made_is_a_configuration_error() {
    for bits in [0, 1, 8] {
        let error = EncryptionKeyPair::generate(bits).err().unwrap();
        assert_eq!(error.message(), "Configuration error: failed to generate private key");
    }
}

#[test]
fn status_text_of_the_default_server() {
    let info = StatusInfo::default();
    assert_eq!(
        info.to_json(),
        "{\"description\":{\"text\":\"5io Test Server\"},\"players\":{\"max\":20,\"online\":0},\"version\":{\"name\":\"1.20.1\",\"protocol\":763}}"
    );
    let parsed: serde_json::Value = serde_json::from_str(&info.to_json()).unwrap();
    assert_eq!(parsed["version"]["name"], "1.20.1");
    assert_eq!(parsed["version"]["protocol"], 763);
    assert_eq!(parsed["players"]["max"], 20);
    assert_eq!(parsed["players"]["online"], 0);
    assert_eq!(parsed["description"]["text"], "5io Test Server");
}

#[test]
fn status_text_escapes_its_strings() {
    let info = StatusInfo {
        version_name: "1.\"20\"\\1".to_string(),
        protocol: -5,
        max_players: i32::MAX,
        online_players: i32::MIN,
        description: "line\nbreak \u{4e16}\u{754c} \"quoted\"".to_string(),
    };
    let json = info.to_json();
    assert!(json.contains("\\n"));
    assert!(json.contains("\\\"quoted\\\""));
    let parsed: serde_json::Value = serde_json::from_str(&json).unwrap();
    assert_eq!(parsed["version"]["name"], "1.\"20\"\\1");
    assert_eq!(parsed["version"]["protocol"], -5);
    assert_eq!(parsed["players"]["max"], i32::MAX);
    assert_eq!(parsed["players"]["online"], i32::MIN);
    assert_eq!(parsed["description"]["text"], "line\nbreak \u{4e16}\u{754c} \"quoted\"");
}

#[test]
fn status_object_is_put_together_as_given() {
    assert_eq!(
        assemble_status("\"d\"", 2, 1, "\"v\"", 7),
        "{\"description\":{\"text\":\"d\"},\"players\":{\"max\":2,\"online\":1},\"version\":{\"name\":\"v\",\"protocol\":7}}"
    );
}

#[test]
fn status_response_is_sent_only() {
    let packet = StatusResponse { json: "{}".to_string() };
    assert_eq!(packet.packet_id(), 0x00);
    let mut buf = BytesMut::new();
    packet.encode(&mut buf).unwrap();
    assert_eq!(&buf[..], &[0x02, b'{', b'}']);
    let error = StatusResponse::decode(&mut buf).unwrap_err();
    assert_eq!(protocol_text(error), "StatusResponse is send-only");
    assert_eq!(buf.len(), 3);
}

#[test]
fn ping_is_eight_bytes_big_endian() {
    let ping = Ping { payload: 42 };
    assert_eq!(ping.packet_id(), 0x01);
    let mut buf = BytesMut::new();
    ping.encode(&mut buf).unwrap();
    assert_eq!(&buf[..], &[0, 0, 0, 0, 0, 0, 0, 42]);
    for payload in [0, 1, -1, 42, i64::MAX, i64::MIN, 0x0102030405060708] {
        let mut buf = BytesMut::new();
        Ping { payload }.encode(&mut buf).unwrap();
        assert_eq!(&buf[..], &payload.to_be_bytes());
        buf.extend_from_slice(&[0x99]);
        assert_eq!(Ping::decode(&mut buf).unwrap(), Ping { payload });
        assert_eq!(&buf[..], &[0x99]);
    }
    let mut short = BytesMut::from(&[0u8; 7][..]);
    let error = Ping::decode(&mut short).unwrap_err();
    assert_eq!(protocol_text(error), "パケットデータが不完全");
    assert_eq!(short.len(), 7);
}

#[test]
fn big_endian_fields() {
    assert_eq!(be_encode(25565, 2), vec![0x63, 0xDD]);
    assert_eq!(be_encode(0x0102030405060708, 8), vec![1, 2, 3, 4, 5, 6, 7, 8]);
    assert_eq!(be_encode(0x1234, 1), vec![0x34]);
    assert_eq!(be_encode(7, 0), Vec::<u8>::new());
    assert_eq!(be_decode(&[0x63, 0xDD]), 25565);
    assert_eq!(be_decode(&[]), 0);
    assert_eq!(be_decode(&[0xFF; 8]), u64::MAX);
}

#[test]
fn decimal_text() {
    assert_eq!(format_decimal(0), "0");
    assert_eq!(format_decimal(7), "7");
    assert_eq!(format_decimal(763), "763");
    assert_eq!(format_decimal(-1), "-1");
    assert_eq!(format_decimal(1234567890), "1234567890");
    assert_eq!(format_decimal(i64::MAX), "9223372036854775807");
    assert_eq!(format_decimal(i64::MIN), "-9223372036854775808");
}

#[test]
fn packet_error_texts() {
    assert_eq!(PacketError::InvalidPacketId(5).message(), "無効なパケットID: 5");
    assert_eq!(PacketError::InvalidPacketId(-12).message(), "無効なパケットID: -12");
    assert_eq!(PacketError::IncompletePacket.message(), "パケットデータが不完全");
    assert_eq!(PacketError::DecodeError("x".to_string()).message(), "デコードエラー: x");
    assert_eq!(PacketError::EncodeError("y".to_string()).message(), "エンコードエラー: y");
    let error = ServerError::from(PacketError::InvalidPacketId(9));
    assert_eq!(protocol_text(error), "無効なパケットID: 9");
}

#[test]
fn server_errors_and_their_sources() {
    let error = ServerError::from("bad");
    assert_eq!(error.message(), "Protocol error: bad");
    let error = ServerError::from("worse".to_string());
    assert!(matches!(&error, ServerError::Protocol(text) if text == "worse"));
    let error = ServerError::from(VarIntError::ValueTooLarge);
    assert!(matches!(error, ServerError::VarInt(VarIntError::ValueTooLarge)));
    assert_eq!(error.message(), "VarInt error: Value too large for VarInt encoding");
    let error = ServerError::from(String::from_utf8(vec![0xFF]).unwrap_err());
    assert_eq!(protocol_text(error), "Invalid UTF-8 encoding");
    let error = ServerError::from(std::io::Error::new(std::io::ErrorKind::Other, "reset"));
    assert!(matches!(error, ServerError::Io(_)));
    assert_eq!(error.message(), "IO error: reset");
    assert_eq!(ServerError::Config("no".to_string()).message(), "Configuration error: no");
}

#[test]
fn settings_start_from_their_defaults() {
    let config = ServerConfig::default();
    assert_eq!(config.listen_address, "127.0.0.1:25565");
    assert_eq!(config.max_connections, 1000);
    assert!(config.metrics.enabled);
    assert_eq!(config.metrics.endpoint, "http://localhost:9091");
    assert_eq!(config.metrics.interval_secs, 60);
    assert_eq!(config.varint.cache_size, 1024);
    assert_eq!(config.varint.batch_size, 100);
    let metrics = MetricsConfig::default();
    assert!(metrics.enabled);
    let varint = VarIntConfig::default();
    assert_eq!(varint.batch_size, 100);

    let pooled = test_server::utils::varint::VarIntConfig::for_threads(3);
    assert_eq!(pooled.thread_pool_size, 3);
    assert_eq!(pooled.quick_lookup_size, 128);
    let extended = test_server::utils::varint::VarIntConfig::default();
    assert_eq!(extended.cache_size, 1024 * 1024);
    assert_eq!(extended.quick_lookup_size, 128);
    assert!(extended.thread_pool_size >= 1);
    assert!(extended.metrics_enabled);
    assert_eq!(extended.metrics_interval_secs, 60);
}

#[test]
fn supervisor_enforces_the_limit() {
    let mut supervisor = ConnectionSupervisor::new(2);
    assert_eq!(supervisor.active_connections(), 0);
    assert!(supervisor.try_admit());
    assert!(supervisor.try_admit());
    assert!(!supervisor.try_admit());
    assert_eq!(supervisor.active_connections(), 2);
    supervisor.release(false);
    assert_eq!(supervisor.active_connections(), 1);
    assert_eq!(supervisor.failed_connections(), 0);
    assert!(supervisor.try_admit());
    assert!(!supervisor.try_admit());
    supervisor.release(true);
    supervisor.release(true);
    supervisor.release(false);
    assert_eq!(supervisor.active_connections(), 0);
    assert_eq!(supervisor.failed_connections(), 2);

    let mut none = ConnectionSupervisor::new(0);
    assert!(!none.try_admit());
    let mut configured = ConnectionSupervisor::from_config(&ServerConfig::default());
    for _ in 0..1000 {
        assert!(configured.try_admit());
    }
    assert!(!configured.try_admit());
}
