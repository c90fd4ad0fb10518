use gb26875::codec::data_unit_codec::DataUnitCodec;
use gb26875::codec::packet_codec::{PacketCodec, StreamingPacketCodec};
use gb26875::codec::traits::{Decoder, Encoder};
use gb26875::data_unit::upstream::UploadSystemStatus;
use gb26875::data_unit::GenericDataUnit;
use gb26875::error::{EncodeError, ParseError};
use gb26875::extension::{parse_with_extensions, ExtensionId, MacroExtensionRegistry, RegisteredExtension};
use gb26875::frame::{ControlUnit, Packet, Timestamp};
use gb26875::info_object::SystemStatus;
use gb26875::protocol::{Command, DataUnitType, ProtocolVersion, SystemType, MIN_PACKET_SIZE};

fn status_unit() -> GenericDataUnit {
    let system_status = SystemStatus::new(SystemType::FireAlarm, 1, 0x0002, Timestamp::now());
    GenericDataUnit::UploadSystemStatus(UploadSystemStatus::new(system_status, Timestamp::now()))
}

#[test]
fn test_encode_decode_upload_system_status() {
    let codec = DataUnitCodec::new();
    let data_unit = status_unit();
    let encoded = codec.encode_generic(&data_unit).unwrap();
    let decoded = codec.decode_generic(&encoded).unwrap();
    assert_eq!(data_unit.data_unit_type(), decoded.data_unit_type());
}

#[test]
fn test_batch_encode_decode() {
    let codec = DataUnitCodec::new();
    let data_units = vec![status_unit()];
    let encoded = codec.encode_batch(&data_units).unwrap();
    let decoded = codec.decode_batch(&encoded).unwrap();
    assert_eq!(data_units.len(), decoded.len());
}

#[test]
fn test_smart_decode() {
    let codec = DataUnitCodec::new();
    let data_unit = status_unit();
    let encoded = codec.encode_generic(&data_unit).unwrap();
    let decoded = codec.decode_smart(&encoded).unwrap();
    assert!(matches!(decoded, GenericDataUnit::UploadSystemStatus(_)));
}

#[test]
fn test_codec_with_extensions() {
    let codec = DataUnitCodec::with_extensions();
    assert!(codec.enable_extensions);

    let codec_normal = DataUnitCodec::new();
    assert!(!codec_normal.enable_extensions);
}

fn registry_with_200() -> MacroExtensionRegistry {
    let mut registry = MacroExtensionRegistry::new();
    registry
        .register_data_unit(RegisteredExtension {
            code: 200,
            extension_id: ExtensionId::new("app::units", "CustomAlarm", "1.0.0"),
            description: "custom alarm".to_string(),
        })
        .unwrap();
    registry
}

#[test]
fn data_unit_codec_flag_byte_first() {
    let codec = DataUnitCodec::new();
    let unit = GenericDataUnit::Raw { data_type: DataUnitType::Reserved(100), data: vec![1, 2, 3] };
    assert_eq!(codec.encode_generic(&unit).unwrap(), vec![100, 1, 2, 3]);
    let back = codec.decode_generic(&[100, 1, 2, 3]).unwrap();
    match back {
        GenericDataUnit::Raw { data_type, data } => {
            assert_eq!(data_type, DataUnitType::Reserved(100));
            assert_eq!(data, vec![1, 2, 3]);
        }
        other => panic!("unexpected {:?}", other),
    }
}

#[test]
fn data_unit_codec_empty_input() {
    let codec = DataUnitCodec::new();
    assert!(matches!(
        codec.decode_generic(&[]),
        Err(ParseError::InsufficientData { expected: 1, actual: 0 })
    ));
}

#[test]
fn data_unit_codec_extension_lookup() {
    let codec = DataUnitCodec::with_registry(registry_with_200());
    match codec.decode_generic(&[200, 9, 8]).unwrap() {
        GenericDataUnit::Extension { type_code, data, description } => {
            assert_eq!(type_code, 200);
            assert_eq!(data, vec![9, 8]);
            assert_eq!(description, "custom alarm");
        }
        other => panic!("unexpected {:?}", other),
    }
    match codec.decode_generic(&[201, 7]).unwrap() {
        GenericDataUnit::Unknown { data_unit_type, raw_data } => {
            assert_eq!(data_unit_type, DataUnitType::UserDefined(201));
            assert_eq!(raw_data, vec![7]);
        }
        other => panic!("unexpected {:?}", other),
    }
    // without extensions the flag goes to the raw decoder
    let plain = DataUnitCodec::new();
    assert!(matches!(plain.decode_generic(&[200, 9]).unwrap(), GenericDataUnit::Raw { .. }));
    assert!(codec.supports_data_unit_type(200));
    assert!(!codec.supports_data_unit_type(201));
    assert!(codec.supports_data_unit_type(1));
    assert!(!plain.supports_data_unit_type(200));
    assert!(!codec.supports_data_unit_type(0));
    assert_eq!(codec.list_extension_data_unit_types(), vec![200]);
    assert!(plain.list_extension_data_unit_types().is_empty());
    assert_eq!(codec.get_extension_description(200), Some("custom alarm".to_string()));
    assert_eq!(codec.get_extension_description(201), None);
}

#[test]
fn data_unit_codec_extension_encoding() {
    let codec = DataUnitCodec::with_registry(registry_with_200());
    assert_eq!(codec.encode_extension_data_unit(200, &[1, 2]).unwrap(), vec![1, 2]);
    assert!(matches!(
        codec.encode_extension_data_unit(201, &[1]),
        Err(EncodeError::UnsupportedDataUnit { data_unit_type: 201, .. })
    ));
}

#[test]
fn data_unit_codec_batch_runs_past_end() {
    let codec = DataUnitCodec::new();
    let unit = status_unit();
    let mut encoded = codec.encode_batch(&[unit.clone(), unit]).unwrap();
    let two = codec.decode_batch(&encoded).unwrap();
    assert_eq!(two.len(), 2);
    encoded.truncate(encoded.len() - 1);
    // the cut unit does not parse, so it is kept as raw bytes
    let cut = codec.decode_batch(&encoded).unwrap();
    assert_eq!(cut.len(), 2);
    match &cut[1] {
        GenericDataUnit::Raw { data_type, data } => {
            assert_eq!(*data_type, DataUnitType::UploadSystemStatus);
            assert_eq!(data.len(), 16);
        }
        other => panic!("unexpected {:?}", other),
    }
    assert!(codec.decode_batch(&[]).unwrap().is_empty());
}

fn hello_packet() -> Packet {
    let timestamp = Timestamp::new(30, 15, 10, 1, 11, 24).unwrap();
    let control_unit = ControlUnit::new(
        0x1234,
        ProtocolVersion::new(1, 1),
        timestamp,
        0x123456789ABC,
        0xDEF123456789,
        5,
        Command::SendData,
    )
    .unwrap();
    Packet::new(control_unit, Some(b"hello".to_vec())).unwrap()
}

#[test]
fn packet_codec_test_packet_encode_decode() {
    let packet = hello_packet();
    let codec = PacketCodec::new();
    let encoded = Encoder::encode(&codec, &packet).unwrap();
    assert!(encoded.len() > MIN_PACKET_SIZE);
    let decoded = Decoder::decode(&codec, &encoded).unwrap();
    assert_eq!(packet, decoded);
}

#[test]
fn test_streaming_codec() {
    let timestamp = Timestamp::new(30, 15, 10, 1, 11, 24).unwrap();
    let control_unit = ControlUnit::new(
        0x1234,
        ProtocolVersion::new(1, 1),
        timestamp,
        0x123456,
        0x654321,
        0,
        Command::SendData,
    )
    .unwrap();
    let packet = Packet::new(control_unit, None).unwrap();
    let codec = PacketCodec::new();
    let encoded = Encoder::encode(&codec, &packet).unwrap();

    let mut streaming_codec = StreamingPacketCodec::new();
    let mid = encoded.len() / 2;
    streaming_codec.feed(&encoded[0..mid]);
    assert!(streaming_codec.try_decode_next().unwrap().is_none());

    streaming_codec.feed(&encoded[mid..]);
    let decoded = streaming_codec.try_decode_next().unwrap();
    assert!(decoded.is_some());
    assert_eq!(packet, decoded.unwrap());
}

#[test]
fn packet_codec_integrity_errors() {
    let codec = PacketCodec::new();
    let mut bytes = Encoder::encode(&codec, &hello_packet()).unwrap();
    assert!(matches!(
        PacketCodec::validate_packet_integrity(&bytes[..10]),
        Err(ParseError::InsufficientData { expected: 30, actual: 10 })
    ));
    let n = bytes.len();
    bytes[n - 3] ^= 0xFF;
    assert!(matches!(
        PacketCodec::validate_packet_integrity(&bytes),
        Err(ParseError::ChecksumMismatch { .. })
    ));
    bytes[n - 3] ^= 0xFF;
    bytes[0] = 0x41;
    assert!(matches!(
        PacketCodec::validate_packet_integrity(&bytes),
        Err(ParseError::InvalidFrameStart { .. })
    ));
    bytes[0] = 0x40;
    bytes[n - 1] = 0x24;
    assert!(matches!(
        PacketCodec::validate_packet_integrity(&bytes),
        Err(ParseError::InvalidFrameEnd { .. })
    ));
}

#[test]
fn streaming_codec_skips_garbage() {
    let codec = PacketCodec::new();
    let encoded = Encoder::encode(&codec, &hello_packet()).unwrap();
    let mut s = StreamingPacketCodec::new();
    s.feed(&[1, 2, 3]);
    s.feed(&encoded);
    let p = s.try_decode_next().unwrap().unwrap();
    assert_eq!(p, hello_packet());
    assert_eq!(s.buffer_len(), 0);
    s.feed(&[9, 9, 9]);
    assert!(s.try_decode_next().unwrap().is_none());
    assert_eq!(s.buffer_len(), 0);
}

struct TestCodec;

impl Encoder<u32> for TestCodec {
    fn encode(&self, item: &u32) -> gb26875::error::EncodeResult<Vec<u8>> {
        Ok(item.to_le_bytes().to_vec())
    }
}

impl Decoder<u32> for TestCodec {
    fn decode(&self, data: &[u8]) -> gb26875::error::ParseResult<u32> {
        if data.len() < 4 {
            return Err(ParseError::InsufficientData { expected: 4, actual: data.len() });
        }
        let bytes: [u8; 4] = data[0..4].try_into().unwrap();
        Ok(u32::from_le_bytes(bytes))
    }
}

#[test]
fn test_codec_trait() {
    let codec = TestCodec;
    let value = 0x12345678u32;
    let encoded = Encoder::encode(&codec, &value).unwrap();
    assert_eq!(encoded.len(), 4);
    let decoded = Decoder::decode(&codec, &encoded).unwrap();
    assert_eq!(decoded, value);
    // the blanket impl makes it a codec too
    let again = gb26875::codec::traits::Codec::decode(&codec, &encoded).unwrap();
    assert_eq!(again, value);
}

#[test]
fn test_parse_with_extensions() {
    let standard_type = DataUnitType::UploadSystemStatus;
    let standard_data = [
        0x01, 0x01, 0x01, 0x02, 0x00, 0x30, 0x15, 0x04, 0x1A, 0x0B, 0x18, 0x2D, 0x1E, 0x0F, 0x04,
        0x0B, 0x18,
    ];
    let result = parse_with_extensions(standard_type, &standard_data);
    match result {
        GenericDataUnit::UploadSystemStatus(_) => {}
        _ => panic!("期望解析为系统状态"),
    }

    let user_type = DataUnitType::UserDefined(200);
    let user_data = [0xFF, 0xEE, 0xDD, 0xCC];
    let result = parse_with_extensions(user_type, &user_data);
    match result {
        GenericDataUnit::Raw { data_type, data } => {
            assert_eq!(data_type, user_type);
            assert_eq!(data.as_slice(), &user_data);
        }
        _ => panic!("期望解析为原始数据"),
    }
    // a standard type whose bytes do not decode is kept raw
    match parse_with_extensions(standard_type, &[1]) {
        GenericDataUnit::Raw { data_type, data } => {
            assert_eq!(data_type, standard_type);
            assert_eq!(data, vec![1]);
        }
        other => panic!("unexpected {:?}", other),
    }
}

#[test]
fn streaming_codec_splits_frames_stuck_together() {
    let codec = PacketCodec::new();
    let first = hello_packet();
    let mut second = hello_packet();
    second.control_unit.sequence = 0x4321;
    let mut bytes = Encoder::encode(&codec, &first).unwrap();
    let second_bytes = Encoder::encode(&codec, &second).unwrap();
    bytes.extend_from_slice(&second_bytes);
    let mut s = StreamingPacketCodec::new();
    s.feed(&bytes);
    assert_eq!(s.try_decode_next().unwrap().unwrap(), first);
    assert_eq!(s.buffer_len(), second_bytes.len());
    assert_eq!(s.try_decode_next().unwrap().unwrap(), second);
    assert_eq!(s.buffer_len(), 0);
    assert!(s.try_decode_next().unwrap().is_none());
}

#[test]
fn batch_of_status_uploads_reads_back() {
    let codec = DataUnitCodec::new();
    let t = Timestamp::new(5, 4, 3, 2, 1, 24).unwrap();
    let units: Vec<GenericDataUnit> = (0..3u8)
        .map(|i| {
            let status = SystemStatus::new(SystemType::FireAlarm, i, 0x0100 + i as u16, t);
            GenericDataUnit::UploadSystemStatus(UploadSystemStatus::new(status, t))
        })
        .collect();
    let encoded = codec.encode_batch(&units).unwrap();
    assert_eq!(encoded.len(), 3 * 18);
    let decoded = codec.decode_batch(&encoded).unwrap();
    assert_eq!(decoded.len(), 3);
    for (a, b) in units.iter().zip(decoded.iter()) {
        assert_eq!(codec.encode_generic(a).unwrap(), codec.encode_generic(b).unwrap());
    }
}
