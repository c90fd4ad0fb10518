use gb26875::codec::encoder::{Encoder, EncoderConfig};

#[test]
fn test_encode_string_utf8() {
    let encoder = Encoder::new();
    let result = encoder.encode_string("测试", Some("UTF-8"));
    assert!(result.is_ok());
    assert_eq!(result.unwrap(), "测试".as_bytes().to_vec());
}

#[test]
fn test_encode_timestamp_valid() {
    let encoder = Encoder::new();
    let timestamp = [25, 11, 4, 14, 30, 0];
    let result = encoder.encode_timestamp(&timestamp);
    assert!(result.is_ok());
    assert_eq!(result.unwrap(), timestamp.to_vec());
}

#[test]
fn test_encode_address() {
    let encoder = Encoder::new();
    let result = encoder.encode_address(0x1234);
    assert!(result.is_ok());
    let bytes = result.unwrap();
    assert_eq!(bytes.len(), 2);
    assert_eq!(bytes, vec![0x34, 0x12]);
}

#[test]
fn test_encode_boolean() {
    let encoder = Encoder::new();
    let true_result = encoder.encode_boolean(true);
    assert!(true_result.is_ok());
    assert_eq!(true_result.unwrap()[0], 1);
    let false_result = encoder.encode_boolean(false);
    assert!(false_result.is_ok());
    assert_eq!(false_result.unwrap()[0], 0);
}

#[test]
fn test_encoder_config() {
    let mut config = EncoderConfig::default();
    config.enable_extensions = true;
    config.default_encoding = "UTF-8".to_string();
    let encoder = Encoder::with_config(config);
    assert!(encoder.config().enable_extensions);
    assert_eq!(encoder.config().default_encoding, "UTF-8");
}

#[test]
fn encoder_set_config_rebuilds_codec() {
    let mut encoder = Encoder::new();
    assert!(!encoder.data_unit_codec.enable_extensions);
    let mut config = EncoderConfig::default();
    config.enable_extensions = true;
    encoder.set_config(config);
    assert!(encoder.data_unit_codec.enable_extensions);
    assert_eq!(encoder.encode_string("ab", Some("GB18030")).unwrap(), vec![b'a', b'b']);
}
