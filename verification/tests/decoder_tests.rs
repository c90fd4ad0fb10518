use gb26875::codec::decoder::{Decoder, DecoderConfig};
use gb26875::codec::decoder_old;
use gb26875::codec::decoder_old::AnalyzedDataType;
use gb26875::error::ParseError;

#[test]
fn decoder_test_decode_string_utf8() {
    let decoder = Decoder::new();
    let data = "测试".as_bytes();
    let result = decoder.decode_string(data);
    assert_eq!(result.unwrap(), "测试");
}

#[test]
fn test_decode_i32() {
    let decoder = Decoder::new();
    let data = [42, 0, 0, 0];
    let result = decoder.decode_i32(&data);
    assert_eq!(result.unwrap(), 42);
}

#[test]
fn decoder_test_decode_timestamp_valid() {
    let decoder = Decoder::new();
    let data = [25, 11, 4, 14, 30, 0];
    let result = decoder.decode_timestamp(&data);
    assert!(result.is_ok());
    assert_eq!(result.unwrap(), data);
}

#[test]
fn decoder_test_decode_address() {
    let decoder = Decoder::new();
    let data = [0x34, 0x12];
    let result = decoder.decode_address(&data);
    assert_eq!(result.unwrap(), 0x1234);
}

#[test]
fn decoder_test_decode_boolean() {
    let decoder = Decoder::new();
    let result = decoder.decode_boolean(&[1]);
    assert_eq!(result.unwrap(), true);
    let result = decoder.decode_boolean(&[0]);
    assert_eq!(result.unwrap(), false);
}

#[test]
fn decoder_i32_negative_and_short() {
    let decoder = Decoder::new();
    assert_eq!(decoder.decode_i32(&[0xFF, 0xFF, 0xFF, 0xFF]).unwrap(), -1);
    assert_eq!(decoder.decode_i32(&[0, 0, 0, 0x80]).unwrap(), i32::MIN);
    assert!(matches!(
        decoder.decode_i32(&[1, 2]),
        Err(ParseError::InsufficientData { expected: 4, actual: 2 })
    ));
}

#[test]
fn decoder_timestamp_errors() {
    let decoder = Decoder::new();
    assert!(matches!(
        decoder.decode_timestamp(&[1, 2, 3]),
        Err(ParseError::InvalidDataLength { expected: 6, actual: 3 })
    ));
    match decoder.decode_timestamp(&[25, 11, 32, 14, 30, 0]) {
        Err(ParseError::InvalidTimestampReason { reason }) => assert_eq!(reason, "日期无效: 32"),
        other => panic!("unexpected {:?}", other),
    }
    match decoder.decode_timestamp(&[25, 11, 4, 14, 30, 60]) {
        Err(ParseError::InvalidTimestampReason { reason }) => assert_eq!(reason, "秒无效: 60"),
        other => panic!("unexpected {:?}", other),
    }
    let mut config = DecoderConfig::default();
    config.strict_mode = false;
    let lax = Decoder::with_config(config);
    assert_eq!(lax.decode_timestamp(&[25, 13, 4, 14, 30, 0]).unwrap(), [25, 13, 4, 14, 30, 0]);
}

#[test]
fn decoder_boolean_modes() {
    let decoder = Decoder::new();
    assert!(matches!(decoder.decode_boolean(&[2]), Err(ParseError::InvalidBooleanValue { value: 2 })));
    assert!(matches!(
        decoder.decode_boolean(&[]),
        Err(ParseError::InsufficientData { expected: 1, actual: 0 })
    ));
    let mut config = DecoderConfig::default();
    config.strict_mode = false;
    let lax = Decoder::with_config(config);
    assert_eq!(lax.decode_boolean(&[7]).unwrap(), true);
}

#[test]
fn decoder_string_invalid_utf8() {
    let decoder = Decoder::new();
    match decoder.decode_string(&[0xFF, 0xFE]) {
        Err(ParseError::InvalidEncoding { encoding, .. }) => assert_eq!(encoding, "UTF-8"),
        other => panic!("unexpected {:?}", other),
    }
}

#[test]
fn decoder_packet_buffer_limit() {
    let mut config = DecoderConfig::default();
    config.max_buffer_size = 10;
    let decoder = Decoder::with_config(config);
    assert!(matches!(
        decoder.decode_packet(&[0u8; 11]),
        Err(ParseError::BufferTooLarge { max_size: 10, actual_size: 11 })
    ));
    assert!(Decoder::new().try_decode_packet(&[0x40, 0x40]).unwrap().is_none());
}

#[test]
fn decoder_old_test_decode_string_utf8() {
    let decoder = decoder_old::Decoder::new();
    let data = "测试".as_bytes();
    let result = decoder.decode_string(data, Some("UTF-8"));
    assert_eq!(result.unwrap(), "测试");
}

#[test]
fn decoder_old_test_decode_timestamp_valid() {
    let decoder = decoder_old::Decoder::new();
    let data = [25, 11, 4, 14, 30, 0];
    let result = decoder.decode_timestamp(&data);
    assert!(result.is_ok());
    assert_eq!(result.unwrap(), data);
}

#[test]
fn test_decode_timestamp_invalid() {
    let mut config = decoder_old::DecoderConfig::default();
    config.strict_mode = true;
    let decoder = decoder_old::Decoder::with_config(config);
    let data = [25, 13, 4, 14, 30, 0];
    let result = decoder.decode_timestamp(&data);
    assert!(result.is_err());
}

#[test]
fn decoder_old_test_decode_address() {
    let decoder = decoder_old::Decoder::new();
    let data = [0x34, 0x12];
    let result = decoder.decode_address(&data);
    assert_eq!(result.unwrap(), 0x1234);
}

#[test]
fn decoder_old_test_decode_boolean() {
    let decoder = decoder_old::Decoder::new();
    let result = decoder.decode_boolean(&[1]);
    assert_eq!(result.unwrap(), true);
    let result = decoder.decode_boolean(&[0]);
    assert_eq!(result.unwrap(), false);
}

#[test]
fn test_decode_boolean_strict_mode() {
    let mut config = decoder_old::DecoderConfig::default();
    config.strict_mode = true;
    let decoder = decoder_old::Decoder::with_config(config);
    let result = decoder.decode_boolean(&[2]);
    assert!(result.is_err());
}

#[test]
fn test_decoder_config() {
    let mut config = decoder_old::DecoderConfig::default();
    config.strict_mode = false;
    config.enable_extensions = true;
    config.default_encoding = "UTF-8".to_string();
    let decoder = decoder_old::Decoder::with_config(config);
    assert!(!decoder.config().strict_mode);
    assert!(decoder.config().enable_extensions);
    assert_eq!(decoder.config().default_encoding, "UTF-8");
}

#[test]
fn decoder_old_gb18030_default() {
    let decoder = decoder_old::Decoder::new();
    // "中" in GB18030 is D6 D0
    assert_eq!(decoder.decode_string(&[0xD6, 0xD0], None).unwrap(), "中");
    assert!(matches!(
        decoder.decode_string(&[0x81], None),
        Err(ParseError::InvalidEncoding { .. })
    ));
    match decoder.decode_string(b"abc", Some("latin1")) {
        Err(ParseError::UnsupportedEncoding { encoding }) => assert_eq!(encoding, "latin1"),
        other => panic!("unexpected {:?}", other),
    }
    let mut config = decoder_old::DecoderConfig::default();
    config.strict_mode = false;
    let lax = decoder_old::Decoder::with_config(config);
    assert_eq!(lax.decode_string(&[0x81], Some("gb18030")).unwrap(), "\u{FFFD}");
}

#[test]
fn decoder_old_set_config_and_analysis() {
    let mut decoder = decoder_old::Decoder::new();
    assert_eq!(decoder.analyze_data_kind(&[]), AnalyzedDataType::Empty);
    let mut frame = vec![0x40, 0x40];
    frame.extend_from_slice(&[0u8; 23]);
    assert_eq!(decoder.analyze_data_kind(&frame), AnalyzedDataType::Packet);
    assert_eq!(decoder.analyze_data_kind(&[0x40]), AnalyzedDataType::DataUnit);
    assert_eq!(decoder.analyze_data_kind(&[1, 0]), AnalyzedDataType::DataUnit);
    // `{` is a standard type flag, so JSON text is taken for a data unit
    assert_eq!(decoder.analyze_data_kind(b"{\"a\":1}"), AnalyzedDataType::DataUnit);
    assert_eq!(decoder.analyze_data_kind(&[0]), AnalyzedDataType::Unknown);
    assert_eq!(decoder.analyze_data_kind(&[200]), AnalyzedDataType::Unknown);
    let mut config = decoder_old::DecoderConfig::default();
    config.enable_extensions = true;
    decoder.set_config(config);
    assert!(decoder.data_unit_codec.enable_extensions);
    assert_eq!(decoder.analyze_data_kind(&[200]), AnalyzedDataType::DataUnit);
}

#[test]
fn decoder_reads_back_encoded_text_and_address() {
    let encoder = gb26875::codec::encoder::Encoder::new();
    let decoder = Decoder::new();
    let bytes = encoder.encode_string("火警 alarm", Some("UTF-8")).unwrap();
    assert_eq!(decoder.decode_string(&bytes).unwrap(), "火警 alarm");
    let addr = encoder.encode_address(0xBEEF).unwrap();
    assert_eq!(addr, vec![0xEF, 0xBE]);
    assert_eq!(decoder.decode_address(&addr).unwrap(), 0xBEEF);
}

#[test]
fn test_analyze_data_type_packet() {
    let decoder = decoder_old::Decoder::new();
    let data = [0x40, 0x40];
    let kind = decoder.analyze_data_kind(&data);
    assert_eq!(kind, AnalyzedDataType::Packet);
}
