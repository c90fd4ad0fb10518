use gb26875::builder::{Builder, PacketBuilder};
use gb26875::error::{EncodeError, ParseError};
use gb26875::frame::checksum::{
    calculate_checksum, calculate_packet_checksum, simple_checksum, verify_checksum,
};
use gb26875::frame::{ControlUnit, Packet, Timestamp};
use gb26875::protocol::{Command, ProtocolVersion, MAX_DATA_UNIT_SIZE};

#[test]
fn test_simple_checksum() {
    let data = [1, 2, 3, 4, 5];
    let checksum = simple_checksum(&data);
    assert_eq!(checksum, 15);
}

#[test]
fn test_checksum_overflow() {
    let data = [255, 255, 255];
    let checksum = simple_checksum(&data);
    assert_eq!(checksum, 253);
}

#[test]
fn test_calculate_checksum() {
    let control_unit = [1; 25];
    let data_unit = [2, 3, 4];
    let checksum = calculate_checksum(&control_unit, &data_unit);
    assert_eq!(checksum, 34);
}

#[test]
fn test_calculate_packet_checksum() {
    let mut packet = vec![0x40, 0x40];
    packet.extend_from_slice(&[1; 25]);
    let checksum = calculate_packet_checksum(&packet).unwrap();
    assert_eq!(checksum, 25);
}

#[test]
fn test_verify_checksum() {
    let mut packet = vec![0x40, 0x40];
    packet.extend_from_slice(&[1; 25]);
    assert!(verify_checksum(&packet, 25));
    assert!(!verify_checksum(&packet, 24));
}

#[test]
fn test_packet_too_short() {
    let short_packet = [0x40, 0x40, 1, 2];
    assert!(calculate_packet_checksum(&short_packet).is_none());
}

#[test]
fn checksum_of_long_input_wraps() {
    let data = vec![200u8; 100_000];
    assert_eq!(simple_checksum(&data), ((200u64 * 100_000) % 256) as u8);
}

fn sample_control_unit(len: u16) -> ControlUnit {
    let timestamp = Timestamp::new(2, 58, 9, 26, 9, 12).unwrap();
    let version = ProtocolVersion::new(1, 1);
    ControlUnit::new(0x0001, version, timestamp, 0x000379, 0x01385B, len, Command::SendData).unwrap()
}

#[test]
fn test_control_unit_creation() {
    let control_unit = sample_control_unit(0x0030);
    assert_eq!(control_unit.sequence, 0x0001);
    assert_eq!(control_unit.source_addr, 0x000379);
    assert_eq!(control_unit.dest_addr, 0x01385B);
    assert_eq!(control_unit.data_unit_len, 0x0030);
    assert_eq!(control_unit.command, Command::SendData);
}

#[test]
fn test_control_unit_bytes() {
    let control_unit = sample_control_unit(0x0030);
    let bytes = control_unit.to_bytes();
    let parsed = ControlUnit::from_bytes(&bytes).unwrap();
    assert_eq!(control_unit, parsed);
}

#[test]
fn test_create_acknowledge() {
    let original = sample_control_unit(0x0030);
    let ack = original.create_acknowledge();
    assert_eq!(ack.sequence, original.sequence);
    assert_eq!(ack.source_addr, original.dest_addr);
    assert_eq!(ack.dest_addr, original.source_addr);
    assert_eq!(ack.command, Command::Acknowledge);
    assert_eq!(ack.data_unit_len, 0);
}

#[test]
fn test_invalid_data_unit_length() {
    let timestamp = Timestamp::new(2, 58, 9, 26, 9, 12).unwrap();
    let version = ProtocolVersion::new(1, 1);
    let result =
        ControlUnit::new(0x0001, version, timestamp, 0x000379, 0x01385B, 1025, Command::SendData);
    assert!(result.is_err());
}

#[test]
fn control_unit_bytes_layout() {
    let cu = sample_control_unit(0x0030);
    let b = cu.to_bytes();
    assert_eq!(
        b,
        [
            0x01, 0x00, 1, 1, 2, 58, 9, 26, 9, 12, 0x79, 0x03, 0, 0, 0, 0, 0x5B, 0x38, 0x01, 0, 0,
            0, 0x30, 0x00, 2
        ]
    );
}

#[test]
fn control_unit_address_out_of_range() {
    let timestamp = Timestamp::new(2, 58, 9, 26, 9, 12).unwrap();
    let r = ControlUnit::new(
        1,
        ProtocolVersion::new(1, 1),
        timestamp,
        0x1_0000_0000_0000,
        1,
        0,
        Command::SendData,
    );
    assert!(matches!(r, Err(ParseError::ValidAddress(0x1_0000_0000_0000, _))));
}

#[test]
fn control_unit_bad_time_label_rejected() {
    let mut b = sample_control_unit(0).to_bytes();
    b[5] = 60;
    match ControlUnit::from_bytes(&b) {
        Err(ParseError::InvalidTimestamp { field, value }) => {
            assert_eq!(field, "minute");
            assert_eq!(value, 60);
        }
        other => panic!("unexpected {:?}", other),
    }
}

#[test]
fn test_timestamp_creation() {
    let ts = Timestamp::new(2, 58, 9, 26, 9, 12).unwrap();
    assert_eq!(ts.second, 2);
    assert_eq!(ts.minute, 58);
    assert_eq!(ts.hour, 9);
    assert_eq!(ts.day, 26);
    assert_eq!(ts.month, 9);
    assert_eq!(ts.year, 12);
    assert_eq!(ts.full_year(), 2012);
}

#[test]
fn test_timestamp_invalid() {
    assert!(Timestamp::new(60, 0, 0, 1, 1, 0).is_err());
    assert!(Timestamp::new(0, 60, 0, 1, 1, 0).is_err());
    assert!(Timestamp::new(0, 0, 24, 1, 1, 0).is_err());
    assert!(Timestamp::new(0, 0, 0, 0, 1, 0).is_err());
    assert!(Timestamp::new(0, 0, 0, 1, 0, 0).is_err());
    assert!(Timestamp::new(0, 0, 0, 1, 1, 100).is_err());
}

#[test]
fn test_timestamp_bytes() {
    let ts = Timestamp::new(2, 58, 9, 26, 9, 12).unwrap();
    let bytes = ts.to_bytes();
    assert_eq!(bytes, [2, 58, 9, 26, 9, 12]);
    let parsed = Timestamp::from_bytes(&bytes).unwrap();
    assert_eq!(ts, parsed);
}

#[test]
fn test_timestamp_display() {
    let ts = Timestamp::new(2, 58, 9, 26, 9, 12).unwrap();
    assert_eq!(ts.to_string(), "2012-09-26 09:58:02");
}

#[test]
fn timestamp_unix_roundtrip_values() {
    let ts = Timestamp::new(0, 0, 0, 1, 1, 0).unwrap();
    assert_eq!(ts.to_unix_timestamp(), Some(946_684_800));
    let back = Timestamp::from_unix_timestamp(946_684_800);
    assert_eq!(back, ts);
    let t2 = Timestamp::from_unix_timestamp(1_700_000_000);
    assert_eq!(t2.to_string(), "2023-11-14 22:13:20");
}

#[test]
fn timestamp_debug_text_lists_fields() {
    let ts = Timestamp::new(2, 58, 9, 26, 9, 12).unwrap();
    assert_eq!(
        ts.debug_text(),
        "Timestamp { second: 2, minute: 58, hour: 9, day: 26, month: 9, year: 12 }"
    );
    assert_eq!(ts.debug_text(), format!("{:?}", ts));
}

fn test_control_unit() -> ControlUnit {
    ControlUnit::new(
        1,
        ProtocolVersion::standard(),
        Timestamp::now(),
        0x123456,
        0x654321,
        0,
        Command::SendData,
    )
    .unwrap()
}

#[test]
fn test_packet_creation() {
    let control_unit = test_control_unit();
    let packet = Packet::empty(control_unit.clone());
    assert_eq!(packet.control_unit, control_unit);
    assert!(packet.data_unit.is_none());
    assert!(packet.is_empty());
}

#[test]
fn test_packet_with_data() {
    let control_unit = test_control_unit();
    let data = b"test data".to_vec();
    let packet = Packet::with_data(control_unit, data.clone()).unwrap();
    assert_eq!(packet.data_unit(), Some(&data));
    assert!(!packet.is_empty());
    assert_eq!(packet.control_unit.data_unit_len, data.len() as u16);
}

#[test]
fn packet_test_packet_encode_decode() {
    let control_unit = test_control_unit();
    let original = Packet::empty(control_unit);
    let encoded = original.encode().unwrap();
    let decoded = Packet::from_bytes(&encoded).unwrap();
    assert_eq!(original, decoded);
}

#[test]
fn test_data_too_large() {
    let control_unit = test_control_unit();
    let large_data = vec![0u8; MAX_DATA_UNIT_SIZE + 1];
    let result = Packet::with_data(control_unit, large_data);
    assert!(matches!(result, Err(EncodeError::DataUnitTooLarge { .. })));
}

#[test]
fn test_packet_validation() {
    let control_unit = test_control_unit();
    let packet = Packet::empty(control_unit);
    assert!(packet.validate().is_ok());
}

#[test]
fn test_packet_responses() {
    let control_unit = test_control_unit();
    let packet = Packet::empty(control_unit);
    let ack = packet.create_acknowledge();
    assert!(ack.is_acknowledge());
    let reject = packet.create_reject();
    assert!(reject.is_reject());
}

#[test]
fn packet_with_data_roundtrip_and_layout() {
    let cu = sample_control_unit(0);
    let p = Packet::with_data(cu, vec![1, 2, 3]).unwrap();
    let bytes = p.encode().unwrap();
    assert_eq!(bytes.len(), 33);
    assert_eq!(&bytes[0..2], &[0x40, 0x40]);
    assert_eq!(&bytes[31..33], &[0x23, 0x23]);
    let sum: u32 = bytes[2..30].iter().map(|b| *b as u32).sum();
    assert_eq!(bytes[30], (sum % 256) as u8);
    let (q, used) = Packet::try_parse(&bytes).unwrap();
    assert_eq!(used, 33);
    assert_eq!(q, p);
}

#[test]
fn packet_parse_errors() {
    let cu = sample_control_unit(0);
    let good = Packet::with_data(cu, vec![9, 9]).unwrap().encode().unwrap();
    assert!(matches!(
        Packet::from_bytes(&good[..20]),
        Err(ParseError::TooShort { actual: 20, expected: 30 })
    ));
    let mut bad_start = good.clone();
    bad_start[0] = 0x41;
    assert!(matches!(Packet::from_bytes(&bad_start), Err(ParseError::InvalidStartMarker(0x41, 0x40))));
    let mut bad_sum = good.clone();
    bad_sum[29] ^= 1;
    assert!(matches!(Packet::from_bytes(&bad_sum), Err(ParseError::ChecksumMismatch { .. })));
    let mut bad_end = good.clone();
    bad_end[31] = 0;
    assert!(matches!(Packet::from_bytes(&bad_end), Err(ParseError::InvalidEndMarker(0x23, 0))));
    let truncated = &good[..31];
    assert!(matches!(
        Packet::from_bytes(truncated),
        Err(ParseError::TooShort { actual: 31, expected: 32 })
    ));
}

#[test]
fn packet_validation_detects_length_mismatch() {
    let mut p = Packet::empty(sample_control_unit(0));
    p.control_unit.data_unit_len = 4;
    assert!(matches!(
        p.validate(),
        Err(ParseError::DataLengthMismatch { expected: 4, actual: 0 })
    ));
}

#[test]
fn packet_set_data_unit_updates_length() {
    let mut p = Packet::empty(sample_control_unit(0));
    p.set_data_unit(Some(vec![1, 2, 3, 4])).unwrap();
    assert_eq!(p.control_unit.data_unit_len, 4);
    assert_eq!(p.len(), 34);
    assert!(p.set_data_unit(Some(vec![0; 1025])).is_err());
    assert_eq!(p.control_unit.data_unit_len, 4);
}

#[test]
fn packet_response_carries_data() {
    let p = Packet::empty(sample_control_unit(0));
    let r = p.create_response(Some(vec![5, 6])).unwrap();
    assert_eq!(r.control_unit.command, Command::Response);
    assert_eq!(r.control_unit.data_unit_len, 2);
    assert_eq!(r.control_unit.source_addr, p.control_unit.dest_addr);
}

#[test]
fn packet_data_unit_mut_changes_bytes_only() {
    let mut packet = Packet::with_data(test_control_unit(), vec![1, 2, 3]).unwrap();
    if let Some(d) = packet.data_unit_mut() {
        d[0] = 9;
    }
    assert_eq!(packet.data_unit(), Some(&vec![9, 2, 3]));
    assert_eq!(packet.control_unit.data_unit_len, 3);
    let mut empty = Packet::empty(test_control_unit());
    assert!(empty.data_unit_mut().is_none());
}

#[test]
fn default_packet_has_standard_control_unit_and_no_data() {
    let packet = Packet::default();
    assert_eq!(packet.control_unit.sequence, 0);
    assert_eq!(packet.control_unit.version, ProtocolVersion::new(1, 1));
    assert_eq!(packet.control_unit.source_addr, 0);
    assert_eq!(packet.control_unit.dest_addr, 0);
    assert_eq!(packet.control_unit.data_unit_len, 0);
    assert_eq!(packet.control_unit.command, Command::SendData);
    assert!(packet.control_unit.timestamp.is_valid());
    assert!(packet.data_unit.is_none());
    assert_eq!(ProtocolVersion::default(), ProtocolVersion::new(1, 1));
    assert!(Timestamp::default().is_valid());
    let cu = ControlUnit::default();
    assert_eq!(cu.command, Command::SendData);
}

#[test]
fn heartbeat_packets_are_recognised() {
    let packet = PacketBuilder::heartbeat(1, 0x123456, 0x654321)
        .unwrap()
        .build()
        .unwrap();
    assert!(packet.is_heartbeat());
    let ts = Timestamp::new(1, 2, 3, 4, 5, 6).unwrap();
    let cu = ControlUnit::new(1, ProtocolVersion::new(1, 1), ts, 1, 2, 3, Command::SendData).unwrap();
    let with_data = Packet::new(cu, Some(vec![1, 2, 3])).unwrap();
    assert!(!with_data.is_heartbeat());
    let cu = ControlUnit::new(1, ProtocolVersion::new(1, 1), ts, 1, 2, 0, Command::Acknowledge).unwrap();
    assert!(!Packet::empty(cu).is_heartbeat());
    let cu = ControlUnit::new(1, ProtocolVersion::new(1, 1), ts, 1, 2, 0, Command::Other(2)).unwrap();
    assert!(Packet::empty(cu).is_heartbeat());
}
