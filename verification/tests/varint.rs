use bytes::BytesMut;
use test_server::utils::config::VarIntConfig;
use test_server::varint::metrics::VarIntMetrics;
use test_server::varint::utils::{
    encode_varint, encode_varlong, peek_block, peek_string, peek_varint, peek_varlong, read_i64,
    read_string, read_varint, write_i64, write_string, write_varint, write_varint_batch,
};
use test_server::varint::{
    Decoded, OptimizedVarInt, VarIntEncoder, VarIntError, VarIntPrimitive, CONTINUE_BIT,
    MAX_VARINT_LENGTH, SEGMENT_BITS,
};

fn codec() -> OptimizedVarInt {
    OptimizedVarInt::new(VarIntConfig::default())
}

#[test]
fn test_varint_encoding() {
    let varint = codec();
    let mut buf = BytesMut::new();
    varint.write_varint(&mut buf, 300).unwrap();
    assert_eq!(varint.read_varint(&mut buf).unwrap(), Some(300));
}

#[test]
fn test_varint_batch() {
    let varint = codec();
    let values = vec![1, 2, 3, 4, 5];
    let mut output = BytesMut::new();
    write_varint_batch(&values, &mut output);

    let mut decoded = Vec::new();
    while let Some(value) = varint.read_varint(&mut output).unwrap() {
        decoded.push(value);
    }
    assert_eq!(values, decoded);
}

#[test]
fn test_optimized_varint() {
    let config = VarIntConfig { cache_size: 1024, batch_size: 100 };
    let varint = OptimizedVarInt::new(config);

    let mut buf = BytesMut::new();
    varint.write_varint(&mut buf, 300).unwrap();
    assert_eq!(varint.read_varint(&mut buf).unwrap(), Some(300));

    let mut buf = BytesMut::new();
    varint.write_varint(&mut buf, 255).unwrap();
    assert_eq!(varint.read_varint(&mut buf).unwrap(), Some(255));

    let mut buf = BytesMut::new();
    varint.write_varint(&mut buf, i32::MAX).unwrap();
    assert_eq!(varint.read_varint(&mut buf).unwrap(), Some(i32::MAX));
}

#[test]
fn test_error_handling() {
    let config = VarIntConfig::default();
    let varint = OptimizedVarInt::new(config);
    let mut buf = BytesMut::new();

    let result = varint.write_string(&mut buf, "a".repeat(i32::MAX as usize + 1).as_str());
    assert!(matches!(result, Err(VarIntError::ValueTooLarge)));
    assert!(buf.is_empty());
}

#[test]
fn canonical_bytes_of_known_values() {
    assert_eq!(encode_varint(0), vec![0x00]);
    assert_eq!(encode_varint(1), vec![0x01]);
    assert_eq!(encode_varint(127), vec![0x7F]);
    assert_eq!(encode_varint(128), vec![0x80, 0x01]);
    assert_eq!(encode_varint(150), vec![0x96, 0x01]);
    assert_eq!(encode_varint(300), vec![0xAC, 0x02]);
    assert_eq!(encode_varint(25565), vec![0xDD, 0xC7, 0x01]);
    assert_eq!(encode_varint(i32::MAX), vec![0xFF, 0xFF, 0xFF, 0xFF, 0x07]);
    assert_eq!(encode_varint(-1), vec![0xFF, 0xFF, 0xFF, 0xFF, 0x0F]);
    assert_eq!(encode_varint(i32::MIN), vec![0x80, 0x80, 0x80, 0x80, 0x08]);
}

#[test]
fn canonical_bytes_of_known_long_values() {
    assert_eq!(encode_varlong(0), vec![0x00]);
    assert_eq!(encode_varlong(300), vec![0xAC, 0x02]);
    assert_eq!(
        encode_varlong(i64::MAX),
        vec![0xFF, 0xFF, 0xFF, 0xFF, 0xFF, 0xFF, 0xFF, 0xFF, 0x7F]
    );
    assert_eq!(
        encode_varlong(-1),
        vec![0xFF, 0xFF, 0xFF, 0xFF, 0xFF, 0xFF, 0xFF, 0xFF, 0xFF, 0x01]
    );
    assert_eq!(
        encode_varlong(i64::MIN),
        vec![0x80, 0x80, 0x80, 0x80, 0x80, 0x80, 0x80, 0x80, 0x80, 0x01]
    );
}

#[test]
fn constants_of_the_format() {
    assert_eq!(MAX_VARINT_LENGTH, 5);
    assert_eq!(SEGMENT_BITS, 0x7F);
    assert_eq!(CONTINUE_BIT, 0x80);
}

#[test]
fn round_trip_of_32_bit_values() {
    let mut samples = vec![0, 1, -1, 127, 128, 255, 256, 300, 16383, 16384, i32::MAX, i32::MIN];
    let mut v: i32 = 1;
    for _ in 0..31 {
        samples.push(v);
        samples.push(v.wrapping_neg());
        samples.push(v.wrapping_sub(1));
        v = v.wrapping_mul(2);
    }
    for value in samples {
        let bytes = encode_varint(value);
        assert!(1 <= bytes.len() && bytes.len() <= 5);
        assert_eq!(peek_varint(&bytes), Decoded::Value(value, bytes.len()));
        let mut buf = BytesMut::new();
        write_varint(&mut buf, value).unwrap();
        assert_eq!(&buf[..], &bytes[..]);
        assert_eq!(read_varint(&mut buf).unwrap(), Some(value));
        assert!(buf.is_empty());
    }
}

#[test]
fn round_trip_of_64_bit_values() {
    let mut samples = vec![0, 1, -1, 42, i64::MAX, i64::MIN];
    let mut v: i64 = 1;
    for _ in 0..63 {
        samples.push(v);
        samples.push(v.wrapping_neg());
        v = v.wrapping_mul(2);
    }
    for value in samples {
        let bytes = encode_varlong(value);
        assert!(1 <= bytes.len() && bytes.len() <= 10);
        assert_eq!(peek_varlong(&bytes), Decoded::Value(value, bytes.len()));
        let mut buf = BytesMut::new();
        write_i64(&mut buf, value).unwrap();
        assert_eq!(read_i64(&mut buf).unwrap(), Some(value));
        assert!(buf.is_empty());
    }
}

#[test]
fn table_and_general_algorithm_agree() {
    let varint = codec();
    for value in 0..256 {
        let from_table = varint.quick_lookup(value).expect("covered by the table");
        assert_eq!(from_table, &encode_varint(value)[..]);
        let mut buf = BytesMut::new();
        varint.write_varint(&mut buf, value).unwrap();
        assert_eq!(&buf[..], &encode_varint(value)[..]);
    }
    assert!(varint.quick_lookup(256).is_none());
    assert!(varint.quick_lookup(-1).is_none());
}

#[test]
fn table_of_a_chosen_size() {
    let varint = OptimizedVarInt::with_quick_lookup_size(VarIntConfig::default(), 1000);
    for value in 0..1000 {
        assert_eq!(varint.quick_lookup(value).unwrap(), &encode_varint(value)[..]);
    }
    assert!(varint.quick_lookup(1000).is_none());
    let empty = OptimizedVarInt::with_quick_lookup_size(VarIntConfig::default(), 0);
    assert!(empty.quick_lookup(0).is_none());
    let mut buf = BytesMut::new();
    empty.write_varint(&mut buf, 0).unwrap();
    assert_eq!(&buf[..], &[0x00]);
    assert_eq!(varint.config().cache_size, 1024);
    assert_eq!(varint.config().batch_size, 100);
}

#[test]
fn table_of_the_extended_settings() {
    let settings = test_server::utils::varint::VarIntConfig::for_threads(2);
    let varint = OptimizedVarInt::with_settings(&settings);
    assert_eq!(varint.config().cache_size, 1024 * 1024);
    assert_eq!(varint.config().batch_size, 100);
    assert_eq!(varint.quick_lookup(127), Some(&[0x7F][..]));
    assert!(varint.quick_lookup(128).is_none());
    let mut buf = BytesMut::new();
    varint.write_varint(&mut buf, 128).unwrap();
    assert_eq!(&buf[..], &[0x80, 0x01]);
}

#[test]
fn reader_waits_for_missing_bytes() {
    assert_eq!(peek_varint(&[]), Decoded::NeedMoreBytes);
    assert_eq!(peek_varint(&[0x80]), Decoded::NeedMoreBytes);
    assert_eq!(peek_varint(&[0xFF, 0xFF, 0xFF, 0xFF]), Decoded::NeedMoreBytes);
    assert_eq!(peek_varlong(&[0x80; 9]), Decoded::NeedMoreBytes);

    let mut buf = BytesMut::from(&[0xAC][..]);
    assert_eq!(read_varint(&mut buf).unwrap(), None);
    assert_eq!(&buf[..], &[0xAC]);
    buf.extend_from_slice(&[0x02, 0x07]);
    assert_eq!(read_varint(&mut buf).unwrap(), Some(300));
    assert_eq!(&buf[..], &[0x07]);
}

#[test]
fn reader_refuses_overlong_encodings() {
    assert_eq!(peek_varint(&[0x80, 0x80, 0x80, 0x80, 0x80]), Decoded::Invalid);
    assert_eq!(peek_varint(&[0xFF, 0xFF, 0xFF, 0xFF, 0xFF, 0x01]), Decoded::Invalid);
    assert_eq!(peek_varlong(&[0x80; 10]), Decoded::Invalid);
    assert_eq!(peek_varlong(&[0x80, 0x80, 0x80, 0x80, 0x80, 0x01]), Decoded::Value(1 << 35, 6));

    let mut buf = BytesMut::from(&[0x80, 0x80, 0x80, 0x80, 0x80, 0x01][..]);
    assert!(matches!(read_varint(&mut buf), Err(VarIntError::InvalidEncoding)));
    assert!(matches!(codec().read_varint(&mut buf), Err(VarIntError::InvalidEncoding)));
    assert!(matches!(i32::from_varint(&mut buf), Err(VarIntError::InvalidEncoding)));
    assert_eq!(buf.len(), 6);
    assert_eq!(read_i64(&mut buf).unwrap(), Some(1 << 35));
    assert!(buf.is_empty());
}

#[test]
fn reader_accepts_padded_encodings() {
    assert_eq!(peek_varint(&[0x80, 0x00]), Decoded::Value(0, 2));
    assert_eq!(peek_varint(&[0x81, 0x80, 0x00]), Decoded::Value(1, 3));
    assert_eq!(peek_varint(&[0xFF, 0xFF, 0xFF, 0xFF, 0x7F]), Decoded::Value(-1, 5));
    assert_eq!(peek_varint(&[0x80, 0x80, 0x80, 0x80, 0x10]), Decoded::Value(0, 5));
}

#[test]
fn findings_as_results() {
    assert!(matches!(peek_varint(&[0x05]).into_result(), Ok(Some((5, 1)))));
    assert!(matches!(peek_varint(&[0x85]).into_result(), Ok(None)));
    assert!(matches!(
        peek_varint(&[0x80; 5]).into_result(),
        Err(VarIntError::InvalidEncoding)
    ));
    assert!(matches!(peek_varint(&[0x05]).require(), Ok((5, 1))));
    assert!(matches!(peek_varint(&[0x85]).require(), Err(VarIntError::BufferUnderflow)));
    assert!(matches!(peek_varint(&[0x80; 5]).require(), Err(VarIntError::InvalidEncoding)));
}

#[test]
fn error_texts() {
    assert_eq!(VarIntError::ValueTooLarge.message(), "Value too large for VarInt encoding");
    assert_eq!(VarIntError::InvalidEncoding.message(), "Invalid VarInt encoding");
    assert_eq!(VarIntError::BufferUnderflow.message(), "Buffer underflow");
    let io = VarIntError::Io(std::io::Error::new(std::io::ErrorKind::Other, "broken pipe"));
    assert_eq!(io.message(), "IO error: broken pipe");
}

#[test]
fn string_round_trip() {
    let varint = codec();
    for text in ["", "A", "localhost", "h\u{e9}llo \u{4e16}\u{754c} \u{1f600}"] {
        let mut buf = BytesMut::new();
        write_string(&mut buf, text).unwrap();
        let mut expected = encode_varint(text.len() as i32);
        expected.extend_from_slice(text.as_bytes());
        assert_eq!(&buf[..], &expected[..]);
        assert_eq!(peek_string(&buf), Decoded::Value(text.to_string(), expected.len()));
        assert_eq!(read_string(&mut buf).unwrap(), Some(text.to_string()));
        assert!(buf.is_empty());

        let mut buf = BytesMut::new();
        varint.write_string(&mut buf, text).unwrap();
        assert_eq!(&buf[..], &expected[..]);
        assert_eq!(varint.read_string(&mut buf).unwrap(), Some(text.to_string()));
    }
}

#[test]
fn string_bytes_of_known_values() {
    let mut buf = BytesMut::new();
    write_string(&mut buf, "").unwrap();
    assert_eq!(&buf[..], &[0x00]);
    let mut buf = BytesMut::new();
    write_string(&mut buf, "A").unwrap();
    assert_eq!(&buf[..], &[0x01, 0x41]);
    let mut buf = BytesMut::new();
    write_string(&mut buf, "\u{e9}").unwrap();
    assert_eq!(&buf[..], &[0x02, 0xC3, 0xA9]);
}

#[test]
fn string_reader_waits_and_refuses() {
    assert_eq!(peek_string(&[]), Decoded::NeedMoreBytes);
    assert_eq!(peek_string(&[0x03, 0x41, 0x42]), Decoded::NeedMoreBytes);
    assert_eq!(peek_string(&[0x03, 0x41, 0x42, 0x43, 0x44]), Decoded::Value("ABC".to_string(), 4));
    assert_eq!(peek_string(&[0x02, 0xC3, 0x28]), Decoded::Invalid);
    assert_eq!(peek_string(&[0x01, 0xFF]), Decoded::Invalid);
    assert_eq!(peek_string(&[0xFF, 0xFF, 0xFF, 0xFF, 0x0F]), Decoded::Invalid);
    assert_eq!(peek_string(&[0x80, 0x80, 0x80, 0x80, 0x80]), Decoded::Invalid);

    let mut buf = BytesMut::from(&[0x03, 0x41, 0x42][..]);
    assert_eq!(read_string(&mut buf).unwrap(), None);
    assert_eq!(&buf[..], &[0x03, 0x41, 0x42]);
    buf.extend_from_slice(&[0x43, 0x44]);
    assert_eq!(read_string(&mut buf).unwrap(), Some("ABC".to_string()));
    assert_eq!(&buf[..], &[0x44]);

    let mut bad = BytesMut::from(&[0x02, 0xFF, 0xFE][..]);
    assert!(matches!(read_string(&mut bad), Err(VarIntError::InvalidEncoding)));
    assert!(matches!(codec().read_string(&mut bad), Err(VarIntError::InvalidEncoding)));
    assert_eq!(bad.len(), 3);
    let mut waiting = BytesMut::from(&[0x02, 0xFF][..]);
    assert!(matches!(read_string(&mut waiting), Ok(None)));
    assert!(matches!(codec().read_string(&mut waiting), Ok(None)));
    assert_eq!(waiting.len(), 2);
}

#[test]
fn string_reader_refuses_what_is_not_utf8() {
    let cases: [&[u8]; 6] = [
        &[0x02, 0xC0, 0x80],
        &[0x03, 0xED, 0xA0, 0x80],
        &[0x04, 0xF4, 0x90, 0x80, 0x80],
        &[0x01, 0x80],
        &[0x02, 0xE2, 0x82],
        &[0x03, 0xE0, 0x80, 0x80],
    ];
    for bytes in cases {
        assert_eq!(peek_string(bytes), Decoded::Invalid);
    }
    assert_eq!(
        peek_string(&[0x04, 0xF4, 0x8F, 0xBF, 0xBF]),
        Decoded::Value("\u{10FFFF}".to_string(), 5)
    );
    assert_eq!(peek_string(&[0x03, 0xEF, 0xBF, 0xBD]), Decoded::Value("\u{FFFD}".to_string(), 4));
    assert_eq!(peek_string(&[0x01, 0x00]), Decoded::Value("\0".to_string(), 2));
}

#[test]
fn block_reader_finds_the_bounds() {
    assert_eq!(peek_block(&[0x02, 0x0A, 0x0B, 0x0C]), Decoded::Value(1, 3));
    assert_eq!(peek_block(&[0x00]), Decoded::Value(1, 1));
    assert_eq!(peek_block(&[0x02, 0x0A]), Decoded::NeedMoreBytes);
    assert_eq!(peek_block(&[0xFF, 0xFF, 0xFF, 0xFF, 0x0F]), Decoded::Invalid);
}

#[test]
fn batch_is_the_run_of_encodings() {
    let varint = codec();
    let values = [0, 300, -1, 127, 128];
    let mut expected = Vec::new();
    for value in values {
        expected.extend_from_slice(&encode_varint(value));
    }
    let mut buf = BytesMut::from(&[0xEE][..]);
    varint.write_varint_batch(&values, &mut buf).unwrap();
    assert_eq!(&buf[1..], &expected[..]);
    let mut buf = BytesMut::new();
    write_varint_batch(&[], &mut buf);
    assert!(buf.is_empty());
}

#[test]
fn primitives_know_their_wire_form() {
    let mut buf = BytesMut::new();
    150i32.to_varint(&mut buf).unwrap();
    assert_eq!(&buf[..], &[0x96, 0x01]);
    assert_eq!(i32::from_varint(&mut buf).unwrap(), Some(150));
    assert_eq!(i32::from_varint(&mut buf).unwrap(), None);
}

#[test]
fn codec_reads_and_writes_long_values() {
    let varint = codec();
    let mut buf = BytesMut::new();
    varint.write_i64(&mut buf, -42).unwrap();
    assert_eq!(buf.len(), 10);
    assert_eq!(varint.read_i64(&mut buf).unwrap(), Some(-42));
    assert_eq!(varint.read_i64(&mut buf).unwrap(), None);
    let mut overlong = BytesMut::from(&[0x80; 10][..]);
    assert!(matches!(varint.read_i64(&mut overlong), Err(VarIntError::InvalidEncoding)));
    assert!(matches!(read_i64(&mut overlong), Err(VarIntError::InvalidEncoding)));
    assert_eq!(overlong.len(), 10);
    let mut short = BytesMut::from(&[0x80; 9][..]);
    assert!(matches!(varint.read_i64(&mut short), Ok(None)));
    assert_eq!(short.len(), 9);
}

#[test]
fn metrics_count_events() {
    let mut metrics = VarIntMetrics::new();
    assert_eq!(metrics, VarIntMetrics::default());
    metrics.record_encode();
    metrics.record_decode();
    metrics.record_decode();
    metrics.record_batch();
    metrics.record_cache_hit();
    metrics.record_cache_miss();
    metrics.update_cache_size(1024);
    metrics.record_encoding_error();
    metrics.record_decoding_error();
    metrics.record_thread_start();
    metrics.record_thread_start();
    metrics.record_thread_end();
    assert_eq!(metrics.encode_count, 1);
    assert_eq!(metrics.decode_count, 2);
    assert_eq!(metrics.batch_operations, 1);
    assert_eq!(metrics.cache_hits, 1);
    assert_eq!(metrics.cache_misses, 1);
    assert_eq!(metrics.cache_size, 1024);
    assert_eq!(metrics.encoding_errors, 1);
    assert_eq!(metrics.decoding_errors, 1);
    assert_eq!(metrics.active_threads, 1);
}

#[test]
fn metrics_wrap_round() {
    let mut metrics = VarIntMetrics::new();
    metrics.encode_count = u64::MAX;
    metrics.record_encode();
    assert_eq!(metrics.encode_count, 0);
    metrics.record_thread_end();
    assert_eq!(metrics.active_threads, usize::MAX);
    metrics.record_thread_start();
    assert_eq!(metrics.active_threads, 0);
}
