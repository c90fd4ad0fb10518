use gb26875::codec::framed::{GB26875FramedCodec, LengthFieldCodec, StreamProcessor};
use gb26875::error::{EncodeError, ParseError};
use gb26875::frame::{ControlUnit, Packet, Timestamp};
use gb26875::protocol::{Command, ProtocolVersion};

#[test]
fn test_gb26875_framed_codec_creation() {
    let codec = GB26875FramedCodec::new();
    assert_eq!(codec.max_frame_length(), 8192);

    let codec = GB26875FramedCodec::with_max_length(4096);
    assert_eq!(codec.max_frame_length(), 4096);
}

#[test]
fn test_length_field_codec_creation() {
    let codec = LengthFieldCodec::new_gb26875();
    assert_eq!(codec.length_field_offset, 22);
    assert_eq!(codec.length_field_length, 2);
    assert_eq!(codec.length_adjustment, 27);
}

#[test]
fn test_stream_processor_creation() {
    let processor = StreamProcessor::new();
    assert_eq!(processor.buffer().len(), 0);
    assert_eq!(processor.stats().packet_count, 0);

    let processor = StreamProcessor::with_capacity(1024);
    assert!(processor.buffer.capacity() >= 1024);
}

#[test]
fn test_stream_processor_feed() {
    let mut processor = StreamProcessor::new();
    let data = [0x40, 0x40, 0x01, 0x02];
    processor.feed(&data);
    assert_eq!(processor.buffer().len(), 4);
    assert_eq!(processor.stats().bytes_processed, 4);
}

#[test]
fn test_stream_processor_clear() {
    let mut processor = StreamProcessor::new();
    processor.feed(&[1, 2, 3, 4]);
    processor.clear();
    assert_eq!(processor.buffer().len(), 0);
}

#[test]
fn test_stream_processor_stats() {
    let mut processor = StreamProcessor::new();
    processor.feed(&[1, 2, 3]);
    processor.feed(&[4, 5]);
    let stats = processor.stats();
    assert_eq!(stats.bytes_processed, 5);
    assert_eq!(stats.buffer_size, 5);
    processor.reset_stats();
    let stats = processor.stats();
    assert_eq!(stats.packet_count, 0);
    assert_eq!(stats.bytes_processed, 0);
}

/// A frame as the framed codec reads it: the data unit length at frame
/// bytes 24 and 25, 30 more bytes than its value, ending in 0x23 and `end`.
fn framed_bytes(len: u16, end: u8) -> Vec<u8> {
    let mut v = vec![0x40, 0x40];
    v.resize(24, 0);
    v.push((len % 256) as u8);
    v.push((len / 256) as u8);
    v.resize(30 + len as usize - 2, 7);
    v.push(0x23);
    v.push(end);
    v
}

#[test]
fn framed_codec_find_frame_cases() {
    let codec = GB26875FramedCodec::new();
    assert_eq!(codec.find_frame(&[0x40; 10]).unwrap(), None);
    assert!(matches!(codec.find_frame(&[0x41; 30]), Err(ParseError::InvalidStartMarker(0x41, 0x41))));
    let f = framed_bytes(3, 0x23);
    assert_eq!(f.len(), 33);
    assert_eq!(codec.find_frame(&f).unwrap(), Some(33));
    assert_eq!(codec.find_frame(&f[..32]).unwrap(), None);
    let bad = framed_bytes(3, 0x24);
    assert!(matches!(
        codec.find_frame(&bad),
        Err(ParseError::InvalidEndByte { expected: 0x23, actual: 0x24 })
    ));
    let small = GB26875FramedCodec::with_max_length(32);
    assert!(matches!(
        small.find_frame(&f),
        Err(ParseError::FrameTooLarge { max_size: 32, actual_size: 33 })
    ));
    let mut lax = GB26875FramedCodec::with_max_length(32);
    lax.set_validate_length(false);
    assert_eq!(lax.find_frame(&f).unwrap(), Some(33));
}

#[test]
fn framed_codec_decode_frame_consumes_or_clears() {
    let mut codec = GB26875FramedCodec::new();
    let mut src = framed_bytes(3, 0x23);
    src.extend_from_slice(&[1, 2]);
    // the frame is cut off; it is no GB26875 packet, so decoding fails
    assert!(codec.decode_frame(&mut src).is_err());
    assert_eq!(src, vec![1, 2]);
    let mut garbage = vec![0u8; 40];
    assert!(codec.decode_frame(&mut garbage).is_err());
    assert!(garbage.is_empty());
    let mut short = vec![0x40, 0x40, 1];
    assert_eq!(codec.decode_frame(&mut short).unwrap(), None);
    assert_eq!(short.len(), 3);
}

fn small_packet() -> Packet {
    let ts = Timestamp::new(30, 15, 10, 1, 11, 24).unwrap();
    let cu = ControlUnit::new(1, ProtocolVersion::new(1, 1), ts, 0x123456, 0x654321, 0, Command::SendData)
        .unwrap();
    Packet::new(cu, None).unwrap()
}

#[test]
fn framed_codec_encode_frame() {
    let mut codec = GB26875FramedCodec::new();
    let mut dst = vec![9];
    codec.encode_frame(small_packet(), &mut dst).unwrap();
    let mut expected = vec![9];
    expected.extend_from_slice(&small_packet().encode().unwrap());
    assert_eq!(dst, expected);
    let mut tiny = GB26875FramedCodec::with_max_length(10);
    let mut dst2 = Vec::new();
    assert!(matches!(
        tiny.encode_frame(small_packet(), &mut dst2),
        Err(EncodeError::DataTooLarge { size: 30, max_size: 10 })
    ));
    assert!(dst2.is_empty());
}

#[test]
fn length_field_codec_lengths() {
    let codec = LengthFieldCodec::new_gb26875();
    let mut buf = vec![0u8; 24];
    buf[22] = 5;
    assert_eq!(codec.decode_frame_length(&buf).unwrap(), Some(32));
    assert_eq!(codec.decode_frame_length(&buf[..23]).unwrap(), None);
    let odd = LengthFieldCodec::new(0, 3, 0, 100);
    assert!(matches!(odd.decode_frame_length(&[1, 2, 3]), Err(ParseError::InvalidLengthFieldSize { size: 3 })));
    let one = LengthFieldCodec::new(1, 1, -2, 100);
    assert_eq!(one.decode_frame_length(&[0, 10]).unwrap(), Some(8));
    let big = LengthFieldCodec::new(0, 4, 0, 100);
    assert!(matches!(
        big.decode_frame_length(&[200, 0, 0, 0]),
        Err(ParseError::FrameTooLarge { max_size: 100, actual_size: 200 })
    ));
    let eight = LengthFieldCodec::new(0, 8, 1, 1000);
    assert_eq!(eight.decode_frame_length(&[0, 1, 0, 0, 0, 0, 0, 0]).unwrap(), Some(257));
}

#[test]
fn length_field_codec_decode_frame() {
    let mut codec = LengthFieldCodec::new(0, 1, 0, 100);
    let mut src = vec![3, 1, 2, 4, 5];
    assert_eq!(codec.decode_frame(&mut src).unwrap(), Some(vec![3, 1, 2]));
    assert_eq!(src, vec![4, 5]);
    assert_eq!(codec.decode_frame(&mut src).unwrap(), None);
    assert_eq!(src, vec![4, 5]);
    let mut refused = vec![200, 1];
    assert!(codec.decode_frame(&mut refused).is_err());
    assert!(refused.is_empty());
}

#[test]
fn stream_processor_counts_packets() {
    let mut processor = StreamProcessor::new();
    processor.encode(&small_packet()).unwrap();
    processor.encode(&small_packet()).unwrap();
    assert_eq!(processor.buffer().len(), 60);
    let packets = processor.decode_all().unwrap();
    assert_eq!(packets, vec![small_packet(), small_packet()]);
    assert_eq!(processor.stats().packet_count, 2);
    assert_eq!(processor.buffer().len(), 0);
}

#[test]
fn framed_codec_finds_encoded_packet() {
    let codec = GB26875FramedCodec::new();
    let mut bytes = small_packet().encode().unwrap();
    assert_eq!(codec.find_frame(&bytes).unwrap(), Some(30));
    bytes.extend_from_slice(&[0x40]);
    assert_eq!(codec.find_frame(&bytes).unwrap(), Some(30));
    let mut codec = GB26875FramedCodec::new();
    assert_eq!(codec.decode_frame(&mut bytes).unwrap(), Some(small_packet()));
    assert_eq!(bytes, vec![0x40]);
}
