use gb26875::error::ParseError;
use gb26875::frame::{ControlUnit, Packet, Timestamp};
use gb26875::parser::{BatchParser, BufferError, DataValidator, FrameDetector, StreamBuffer};
use gb26875::parser::PacketParser;
use gb26875::protocol::{Command, ProtocolVersion};

fn create_test_packet_data() -> Vec<u8> {
    let control_unit =
        ControlUnit::new(1, ProtocolVersion::new(1, 0), Timestamp::now(), 0x123456, 0x654321, 0, Command::SendData);
    let packet = Packet::empty(control_unit.unwrap());
    packet.encode().unwrap().to_vec()
}

fn fixed_packet_data(data: Vec<u8>) -> Vec<u8> {
    let ts = Timestamp::new(10, 20, 3, 4, 5, 6).unwrap();
    let cu = ControlUnit::new(1, ProtocolVersion::new(1, 0), ts, 0x123456, 0x654321, 0, Command::SendData).unwrap();
    Packet::with_data(cu, data).unwrap().encode().unwrap()
}

#[test]
fn test_frame_format_validation() {
    let validator = DataValidator::new();
    let packet_data = create_test_packet_data();
    assert!(validator.validate_frame_format(&packet_data).is_ok());
    let short_data = vec![0x40, 0x40];
    assert!(validator.validate_frame_format(&short_data).is_err());
    let mut bad_start = packet_data.clone();
    bad_start[0] = 0xFF;
    assert!(validator.validate_frame_format(&bad_start).is_err());
}

#[test]
fn test_checksum_validation() {
    let validator = DataValidator::new();
    let packet_data = create_test_packet_data();
    assert!(validator.validate_checksum(&packet_data).is_ok());
    let mut bad_checksum = packet_data.clone();
    let checksum_pos = bad_checksum.len() - 3;
    bad_checksum[checksum_pos] = bad_checksum[checksum_pos].wrapping_add(1);
    assert!(validator.validate_checksum(&bad_checksum).is_err());
}

#[test]
fn test_complete_frame_validation() {
    let validator = DataValidator::new();
    let packet_data = create_test_packet_data();
    assert!(validator.validate_complete_frame(&packet_data).is_ok());
}

#[test]
fn test_data_unit_length_validation() {
    let validator = DataValidator::new();
    let test_data = vec![0x01, 0x02, 0x03, 0x04];
    assert!(validator.validate_data_unit_length(4, &test_data).is_ok());
    assert!(validator.validate_data_unit_length(5, &test_data).is_err());
    assert!(validator.validate_data_unit_length(3, &test_data).is_err());
}

#[test]
fn validator_error_details() {
    let v = DataValidator::default();
    let good = fixed_packet_data(vec![]);
    let mut bad_end = good.clone();
    let n = bad_end.len();
    bad_end[n - 1] = 0;
    match v.validate_frame_format(&bad_end) {
        Err(ParseError::InvalidFrameEnd { expected, found }) => {
            assert_eq!(expected, vec![0x23, 0x23]);
            assert_eq!(found, vec![0x23, 0]);
        }
        other => panic!("unexpected {:?}", other),
    }
    let cu = &good[2..27];
    assert!(v.validate_protocol_version(cu).is_ok());
    let mut cu2 = cu.to_vec();
    cu2[2] = 0;
    cu2[3] = 7;
    match v.validate_protocol_version(&cu2) {
        Err(ParseError::UnsupportedVersion { version }) => assert_eq!(version, "0.7"),
        other => panic!("unexpected {:?}", other),
    }
    assert!(matches!(
        v.validate_protocol_version(&cu2[..10]),
        Err(ParseError::InsufficientData { expected: 25, actual: 10 })
    ));
    assert!(matches!(
        v.validate_data_unit_length(1500, &vec![0; 1500]),
        Err(ParseError::DataUnitTooLarge { size: 1500, max_size: 1024 })
    ));
}

#[test]
fn test_frame_detector() {
    let mut detector = FrameDetector::new();
    let packet_data = create_test_packet_data();
    let mid = packet_data.len() / 2;
    let result1 = detector.feed(&packet_data[..mid]).unwrap();
    assert!(result1.is_none());
    let result2 = detector.feed(&packet_data[mid..]).unwrap();
    assert!(result2.is_some());
    let detected_frame = result2.unwrap();
    assert_eq!(detected_frame.to_vec(), packet_data);
}

#[test]
fn test_frame_detector_with_noise() {
    let mut detector = FrameDetector::new();
    let packet_data = create_test_packet_data();
    let noise = vec![0xFF, 0xEE, 0xDD, 0xCC];
    let mut data_with_noise = noise.clone();
    data_with_noise.extend_from_slice(&packet_data);
    data_with_noise.extend_from_slice(&noise);
    let result = detector.feed(&data_with_noise).unwrap();
    assert!(result.is_some());
    let detected_frame = result.unwrap();
    assert_eq!(detected_frame.to_vec(), packet_data);
}

#[test]
fn frame_detector_states_and_limits() {
    let mut d = FrameDetector::default();
    assert_eq!(d.current_state(), "SearchingStart");
    assert_eq!(d.feed(&[1, 2, 3]).unwrap(), None);
    assert_eq!(d.buffer_len(), 1);
    let mut frame = fixed_packet_data(vec![]);
    frame[24] = 0xFF;
    frame[25] = 0x7F;
    let mut d2 = FrameDetector::new();
    assert!(matches!(d2.feed(&frame), Err(ParseError::DataUnitTooLarge { size: 0x7FFF, max_size: 1024 })));
    assert_eq!(d2.current_state(), "ReadingData");
    let f = fixed_packet_data(vec![1, 2, 3]);
    let mut d3 = FrameDetector::with_capacity(64);
    for k in 0..f.len() {
        assert_eq!(d3.feed(&f[k..k + 1]).unwrap().is_some(), k + 1 == f.len());
    }
    assert!(!d3.has_pending_data());
}

#[test]
fn test_packet_parser() {
    let mut parser = PacketParser::new();
    let packet_data = create_test_packet_data();
    let result = parser.parse(&packet_data).unwrap();
    assert!(result.is_some());
    let stats = parser.stats();
    assert_eq!(stats.packets_parsed, 1);
    assert_eq!(stats.parse_errors, 0);
}

#[test]
fn test_packet_parser_partial_data() {
    let mut parser = PacketParser::new();
    let packet_data = create_test_packet_data();
    let mid = packet_data.len() / 2;
    let result1 = parser.parse(&packet_data[..mid]).unwrap();
    assert!(result1.is_none());
    let result2 = parser.parse(&packet_data[mid..]).unwrap();
    assert!(result2.is_some());
    let stats = parser.stats();
    assert_eq!(stats.packets_parsed, 1);
}

#[test]
fn test_batch_parser() {
    let mut parser = BatchParser::new();
    let packet_data = create_test_packet_data();
    let mut multi_packet_data = packet_data.clone();
    multi_packet_data.extend_from_slice(&packet_data);
    let packets = parser.parse_all(&multi_packet_data).unwrap();
    assert!(!packets.is_empty());
}

#[test]
fn test_parser_stats() {
    let mut parser = PacketParser::new();
    let stats = parser.stats();
    assert_eq!(stats.packets_parsed, 0);
    assert_eq!(stats.parse_errors, 0);
    let packet_data = create_test_packet_data();
    let _ = parser.parse(&packet_data).unwrap();
    let stats = parser.stats();
    assert_eq!(stats.packets_parsed, 1);
    parser.reset_stats();
    let stats = parser.stats();
    assert_eq!(stats.packets_parsed, 0);
}

#[test]
fn test_parser_with_noise() {
    let mut parser = PacketParser::new();
    let packet_data = create_test_packet_data();
    let noise = vec![0xFF, 0xEE, 0xDD, 0xCC];
    let mut data_with_noise = noise.clone();
    data_with_noise.extend_from_slice(&packet_data);
    data_with_noise.extend_from_slice(&noise);
    let result = parser.parse(&data_with_noise).unwrap();
    assert!(result.is_some());
    let stats = parser.stats();
    assert_eq!(stats.packets_parsed, 1);
}

#[test]
fn packet_parser_counts_checksum_errors() {
    let mut parser = PacketParser::with_capacity(128);
    let mut f = fixed_packet_data(vec![5]);
    let n = f.len();
    f[n - 3] ^= 0x55;
    assert!(matches!(parser.parse(&f), Err(ParseError::ChecksumMismatch { .. })));
    assert_eq!(parser.stats().checksum_errors, 1);
    assert_eq!(parser.stats().parse_errors, 1);
    assert!(!parser.has_pending_data());
    assert_eq!(parser.buffer_len(), 0);
}

#[test]
fn test_stream_buffer_basic() {
    let mut buffer = StreamBuffer::new();
    let data = b"Hello, World!";
    buffer.push_data(data).unwrap();
    assert_eq!(buffer.len(), data.len());
    let extracted = buffer.extract(5).unwrap();
    assert_eq!(extracted.as_slice(), b"Hello");
    assert_eq!(buffer.len(), data.len() - 5);
    let peeked = buffer.peek(2).unwrap();
    assert_eq!(peeked, b", ");
    assert_eq!(buffer.len(), data.len() - 5);
}

#[test]
fn test_buffer_overflow() {
    let mut buffer = StreamBuffer::with_capacity(10);
    buffer.set_max_buffer_size(20);
    buffer.push_data(b"1234567890").unwrap();
    buffer.push_data(b"abcdefghij").unwrap();
    let result = buffer.push_data(b"overflow");
    assert!(result.is_err());
    match result {
        Err(BufferError::BufferOverflow { .. }) => {}
        _ => panic!("Expected BufferOverflow error"),
    }
}

#[test]
fn test_frame_queue() {
    let mut buffer = StreamBuffer::new();
    let frame1 = b"frame1".to_vec();
    let frame2 = b"frame2".to_vec();
    buffer.enqueue_frame(frame1.clone());
    buffer.enqueue_frame(frame2.clone());
    assert_eq!(buffer.frame_queue_len(), 2);
    assert!(!buffer.frame_queue_is_empty());
    let dequeued1 = buffer.dequeue_frame().unwrap();
    assert_eq!(dequeued1, frame1);
    let dequeued2 = buffer.dequeue_frame().unwrap();
    assert_eq!(dequeued2, frame2);
    assert_eq!(buffer.frame_queue_len(), 0);
    assert!(buffer.frame_queue_is_empty());
}

#[test]
fn test_discard_and_compact() {
    let mut buffer = StreamBuffer::new();
    buffer.push_data(b"1234567890abcdefghij").unwrap();
    assert_eq!(buffer.len(), 20);
    let discarded = buffer.discard(10);
    assert_eq!(discarded, 10);
    assert_eq!(buffer.len(), 10);
    let peeked = buffer.peek_all();
    assert_eq!(peeked, b"abcdefghij");
    buffer.compact();
    assert_eq!(buffer.peek_all(), b"abcdefghij");
}

#[test]
fn test_stats() {
    let mut buffer = StreamBuffer::new();
    buffer.push_data(b"test data").unwrap();
    let stats = buffer.stats();
    assert_eq!(stats.bytes_received, 9);
    assert_eq!(stats.current_buffer_size, 9);
    assert!(stats.peak_buffer_size >= 9);
    buffer.reset_stats();
    let stats = buffer.stats();
    assert_eq!(stats.bytes_received, 0);
    assert_eq!(stats.frames_processed, 0);
}

#[test]
fn stream_buffer_edges() {
    let mut b = StreamBuffer::with_capacity(2);
    assert_eq!(b.remaining_capacity(), 8);
    match b.push_data(&[0; 9]) {
        Err(BufferError::BufferOverflow { current_size, incoming_size, max_size }) => {
            assert_eq!((current_size, incoming_size, max_size), (0, 9, 8));
        }
        other => panic!("unexpected {:?}", other),
    }
    assert_eq!(b.stats().buffer_overflows, 1);
    b.push_data(&[1, 2, 3]).unwrap();
    assert!(b.extract(4).is_none());
    assert!(b.peek(4).is_none());
    assert_eq!(b.discard(10), 3);
    assert!(b.is_empty());
    assert!(b.capacity() >= b.len());
    assert_eq!(b.dequeue_frame(), None);
    b.push_data(&[9]).unwrap();
    b.clear();
    assert!(b.is_empty());
}

#[test]
fn validator_accepts_packet_with_zero_minute() {
    let ts = Timestamp::new(5, 0, 9, 26, 9, 12).unwrap();
    let cu = ControlUnit::new(1, ProtocolVersion::new(1, 0), ts, 0x123456, 0x654321, 0, Command::SendData)
        .unwrap();
    let data = Packet::empty(cu).encode().unwrap();
    assert!(DataValidator::new().validate_complete_frame(&data).is_ok());
    let mut bad = data.clone();
    bad[4] = 0;
    assert!(DataValidator::new().validate_complete_frame(&bad).is_err());
}

#[test]
fn batch_parser_returns_every_packet() {
    let mut parser = BatchParser::new();
    let one = fixed_packet_data(vec![]);
    let two = fixed_packet_data(vec![1, 2, 3]);
    let mut data = vec![0x11, 0x22];
    data.extend_from_slice(&one);
    data.extend_from_slice(&two);
    data.extend_from_slice(&one[..10]);
    let packets = parser.parse_all(&data).unwrap();
    assert_eq!(packets.len(), 2);
    assert_eq!(packets[0], Packet::parse(&one).unwrap());
    assert_eq!(packets[1], Packet::parse(&two).unwrap());
    assert_eq!(parser.stats().packets_parsed, 2);
    assert!(parser.parse_all(&[]).unwrap().is_empty());
    let rest = parser.parse_all(&one[10..]).unwrap();
    assert_eq!(rest, vec![Packet::parse(&one).unwrap()]);
}
