//! Framing of a byte stream: finding where a frame ends from its length
//! field, cutting it off the front of a buffer and decoding it, and a
//! stream processor that counts what passes through.
use crate::error::{EncodeError, EncodeResult, ParseError, ParseResult};
use crate::frame::packet::{packet_parse_ok, Packet};
use crate::wire::{append_bytes, le16, le32, u16_from_le, u32_from_le};
use vstd::prelude::*;

verus! {

/// Where the frame at the front of `b` ends, as the framed codec reads it:
/// the start marker, then the data unit length in the control unit (frame
/// bytes 24 and 25), 30 bytes more than that value, the last two of them the
/// end marker `0x23 0x23`; none while fewer than 30 bytes or fewer than the
/// frame's are there.
pub open spec fn frame_end(max_frame_length: usize, validate_length: bool, b: Seq<u8>) -> ParseResult<
    Option<usize>,
> {
    let total = 30 + le16(b[24], b[25]);
    if b.len() < 30 {
        Ok(None)
    } else if !(b[0] == 0x40 && b[1] == 0x40) {
        Err(ParseError::InvalidStartMarker(b[0], b[1]))
    } else if validate_length && total > max_frame_length {
        Err(ParseError::FrameTooLarge { max_size: max_frame_length, actual_size: total as usize })
    } else if b.len() < total {
        Ok(None)
    } else if b[total - 2] != 0x23 {
        Err(ParseError::InvalidEndByte { expected: 0x23, actual: b[total - 2] })
    } else if b[total - 1] != 0x23 {
        Err(ParseError::InvalidEndByte { expected: 0x23, actual: b[total - 1] })
    } else {
        Ok(Some(total as usize))
    }
}

/// The framed codec finds exactly the frame of a representable packet at the
/// front of a buffer, whatever bytes follow it, when the frame is within the
/// length limit or the limit is not checked; the frame decodes to the packet.
pub proof fn law_framed_codec_finds_packet(
    max_frame_length: usize,
    validate_length: bool,
    p: Packet,
    rest: Seq<u8>,
)
    requires
        p.wire_representable(),
        validate_length ==> p.spec_bytes().len() <= max_frame_length,
    ensures
        frame_end(max_frame_length, validate_length, p.spec_bytes() + rest) == Ok::<
            Option<usize>,
            ParseError,
        >(Some(p.spec_bytes().len() as usize)),
        (p.spec_bytes() + rest).take(p.spec_bytes().len() as int) == p.spec_bytes(),
        (p.spec_bytes() + rest).skip(p.spec_bytes().len() as int) == rest,
        packet_parse_ok(p.spec_bytes(), Ok(p)),
{
    let a = p.spec_bytes();
    let b = a + rest;
    crate::codec::packet_codec::lemma_stream_frame_facts(p, rest);
    crate::frame::packet::law_packet_bytes_roundtrip(p);
    let n = a.len() as int;
    assert(b[0] == a[0] && b[1] == a[1]);
    assert(a[n - 2] == 0x23 && a[n - 1] == 0x23);
    assert(b[n - 2] == a[n - 2] && b[n - 1] == a[n - 1]);
}

/// Cuts frames from a stream and decodes them as packets.
#[derive(Debug, Clone, Copy, PartialEq, Eq, Structural)]
pub struct GB26875FramedCodec {
    /// largest frame accepted, in bytes
    pub max_frame_length: usize,
    /// whether the frame length is checked against the largest
    pub validate_length: bool,
}

impl GB26875FramedCodec {
    /// A codec accepting frames of up to 8192 bytes.
    pub fn new() -> (r: Self)
        ensures
            r.max_frame_length == 8192,
            r.validate_length,
    {
        GB26875FramedCodec { max_frame_length: 8192, validate_length: true }
    }

    /// A codec accepting frames of up to `max_length` bytes.
    pub fn with_max_length(max_length: usize) -> (r: Self)
        ensures
            r.max_frame_length == max_length,
            r.validate_length,
    {
        GB26875FramedCodec { max_frame_length: max_length, validate_length: true }
    }

    /// Turns the length check on or off.
    pub fn set_validate_length(&mut self, validate: bool)
        ensures
            final(self).validate_length == validate,
            final(self).max_frame_length == old(self).max_frame_length,
    {
        self.validate_length = validate;
    }

    /// The largest frame accepted.
    pub fn max_frame_length(&self) -> (r: usize)
        ensures
            r == self.max_frame_length,
    {
        self.max_frame_length
    }

    /// Where the frame at the front of `buf` ends: start marker, control
    /// unit, data unit, checksum and the two end bytes.
    pub fn find_frame(&self, buf: &[u8]) -> (r: ParseResult<Option<usize>>)
        ensures
            r == frame_end(self.max_frame_length, self.validate_length, buf@),
    {
        if buf.len() < 30 {
            return Ok(None);
        }
        if buf[0] != 0x40 || buf[1] != 0x40 {
            return Err(ParseError::InvalidStartMarker(buf[0], buf[1]));
        }
        let data_length = u16_from_le(buf[24], buf[25]) as usize;
        let total_length = 2 + 25 + data_length + 1 + 2;
        if self.validate_length && total_length > self.max_frame_length {
            return Err(
                ParseError::FrameTooLarge {
                    max_size: self.max_frame_length,
                    actual_size: total_length,
                },
            );
        }
        if buf.len() < total_length {
            return Ok(None);
        }
        if buf[total_length - 2] != 0x23 {
            return Err(ParseError::InvalidEndByte { expected: 0x23, actual: buf[total_length - 2] });
        }
        if buf[total_length - 1] != 0x23 {
            return Err(ParseError::InvalidEndByte { expected: 0x23, actual: buf[total_length - 1] });
        }
        Ok(Some(total_length))
    }

    /// Takes the frame at the front of `src` off and decodes it; leaves
    /// `src` as it is while the frame is incomplete, and empties it when
    /// the frame is malformed.
    pub fn decode_frame(&mut self, src: &mut Vec<u8>) -> (r: ParseResult<Option<Packet>>)
        ensures
            *final(self) == *old(self),
            match frame_end(old(self).max_frame_length, old(self).validate_length, old(src)@) {
                Ok(Some(n)) => final(src)@ == old(src)@.skip(n as int) && ((r matches Ok(Some(p))
                    && packet_parse_ok(old(src)@.take(n as int), Ok(p))) || (r matches Err(e)
                    && packet_parse_ok(old(src)@.take(n as int), Err(e)))),
                Ok(None) => final(src)@ == old(src)@ && r matches Ok(None),
                Err(e) => final(src)@.len() == 0 && r == Err::<Option<Packet>, ParseError>(e),
            },
    {
        match self.find_frame(src.as_slice()) {
            Ok(Some(frame_length)) => {
                let frame = vstd::slice::slice_to_vec(&src.as_slice()[0..frame_length]);
                let rest = vstd::slice::slice_to_vec(&src.as_slice()[frame_length..src.len()]);
                *src = rest;
                match Packet::parse(frame.as_slice()) {
                    Ok(packet) => Ok(Some(packet)),
                    Err(e) => Err(e),
                }
            },
            Ok(None) => Ok(None),
            Err(e) => {
                src.clear();
                Err(e)
            },
        }
    }

    /// Appends a packet's frame bytes to `dst`; refuses a packet that does
    /// not encode, and with the length check on one whose frame is longer
    /// than the largest accepted.
    pub fn encode_frame(&mut self, item: Packet, dst: &mut Vec<u8>) -> (r: EncodeResult<()>)
        ensures
            *final(self) == *old(self),
            item.data_bytes().len() > 1024 ==> (r matches Err(
                EncodeError::DataUnitTooLarge { size, max_size },
            ) && size == item.data_bytes().len() && max_size == 1024 && final(dst)@ == old(dst)@),
            item.data_bytes().len() <= 1024 && old(self).validate_length
                && item.spec_bytes().len() > old(self).max_frame_length ==> (r matches Err(
                EncodeError::DataTooLarge { size, max_size },
            ) && size == item.spec_bytes().len() && max_size == old(self).max_frame_length
                && final(dst)@ == old(dst)@),
            item.data_bytes().len() <= 1024 && !(old(self).validate_length
                && item.spec_bytes().len() > old(self).max_frame_length) ==> (r is Ok
                && final(dst)@ == old(dst)@ + item.spec_bytes()),
    {
        match item.encode() {
            Ok(encoded) => {
                if self.validate_length && encoded.len() > self.max_frame_length {
                    return Err(
                        EncodeError::DataTooLarge {
                            size: encoded.len(),
                            max_size: self.max_frame_length,
                        },
                    );
                }
                append_bytes(dst, encoded.as_slice());
                Ok(())
            },
            Err(e) => Err(e),
        }
    }
}

impl Default for GB26875FramedCodec {
    fn default() -> (r: Self)
        ensures
            r.max_frame_length == 8192,
            r.validate_length,
    {
        Self::new()
    }
}

/// Value of eight little-endian bytes.
pub open spec fn le64(b: Seq<u8>, off: int) -> u64 {
    (le32(b[off], b[off + 1], b[off + 2], b[off + 3]) + 0x1_0000_0000 * le32(
        b[off + 4],
        b[off + 5],
        b[off + 6],
        b[off + 7],
    )) as u64
}

/// The unsigned little-endian value of the `size` bytes at `off`, for the
/// sizes 1, 2, 4 and 8.
pub open spec fn length_field_value(b: Seq<u8>, off: int, size: usize) -> Option<u64> {
    if size == 1 {
        Some(b[off] as u64)
    } else if size == 2 {
        Some(le16(b[off], b[off + 1]) as u64)
    } else if size == 4 {
        Some(le32(b[off], b[off + 1], b[off + 2], b[off + 3]) as u64)
    } else if size == 8 {
        Some(le64(b, off))
    } else {
        None
    }
}

/// Cuts frames from a stream by a length field at a fixed offset.
#[derive(Debug, Clone, Copy, PartialEq, Eq, Structural)]
pub struct LengthFieldCodec {
    /// offset of the length field from the frame's start
    pub length_field_offset: usize,
    /// size of the length field in bytes (1, 2, 4 or 8)
    pub length_field_length: usize,
    /// added to the field's value to give the frame's length
    pub length_adjustment: isize,
    /// largest frame accepted, in bytes
    pub max_frame_length: usize,
}

impl LengthFieldCodec {
    /// The signed sum of the field's value (as a machine-size signed
    /// integer) and the adjustment.
    pub open spec fn length_sum(self, v: u64) -> int {
        (v as isize) + self.length_adjustment
    }

    /// The frame length the codec reads from the front of `b`: none while
    /// the field is not all there; the field's value plus the adjustment,
    /// taken as an unsigned machine-size value, refused above the largest.
    pub open spec fn frame_length_of(self, b: Seq<u8>) -> ParseResult<Option<usize>> {
        if b.len() < self.length_field_offset + self.length_field_length {
            Ok(None)
        } else {
            match length_field_value(b, self.length_field_offset as int, self.length_field_length) {
                None => Err(ParseError::InvalidLengthFieldSize { size: self.length_field_length }),
                Some(v) => {
                    let n = self.length_sum(v) as usize;
                    if n > self.max_frame_length {
                        Err(ParseError::FrameTooLarge { max_size: self.max_frame_length, actual_size: n })
                    } else {
                        Ok(Some(n))
                    }
                },
            }
        }
    }

    /// Whether reading `b` stays clear of machine overflow: the field's end
    /// offset fits, and so does the signed sum of value and adjustment.
    pub open spec fn reads_in_range(self, b: Seq<u8>) -> bool {
        &&& self.length_field_offset + self.length_field_length <= usize::MAX
        &&& b.len() >= self.length_field_offset + self.length_field_length ==> match length_field_value(
            b,
            self.length_field_offset as int,
            self.length_field_length,
        ) {
            Some(v) => isize::MIN <= self.length_sum(v) <= isize::MAX,
            None => true,
        }
    }

    /// The codec for GB26875 frames: a two-byte field at offset 22, plus 27,
    /// frames of up to 8192 bytes.
    pub fn new_gb26875() -> (r: Self)
        ensures
            r.length_field_offset == 22,
            r.length_field_length == 2,
            r.length_adjustment == 27,
            r.max_frame_length == 8192,
    {
        LengthFieldCodec {
            length_field_offset: 22,
            length_field_length: 2,
            length_adjustment: 27,
            max_frame_length: 8192,
        }
    }

    /// A codec with the given field position, size, adjustment and largest
    /// frame.
    pub fn new(
        length_field_offset: usize,
        length_field_length: usize,
        length_adjustment: isize,
        max_frame_length: usize,
    ) -> (r: Self)
        ensures
            r.length_field_offset == length_field_offset,
            r.length_field_length == length_field_length,
            r.length_adjustment == length_adjustment,
            r.max_frame_length == max_frame_length,
    {
        LengthFieldCodec { length_field_offset, length_field_length, length_adjustment, max_frame_length }
    }

    /// The length of the frame at the front of `buf`.
    pub fn decode_frame_length(&self, buf: &[u8]) -> (r: ParseResult<Option<usize>>)
        requires
            self.reads_in_range(buf@),
        ensures
            r == self.frame_length_of(buf@),
    {
        let required_bytes = self.length_field_offset + self.length_field_length;
        if buf.len() < required_bytes {
            return Ok(None);
        }
        let o = self.length_field_offset;
        let field_value: u64 = if self.length_field_length == 1 {
            buf[o] as u64
        } else if self.length_field_length == 2 {
            u16_from_le(buf[o], buf[o + 1]) as u64
        } else if self.length_field_length == 4 {
            u32_from_le(buf[o], buf[o + 1], buf[o + 2], buf[o + 3]) as u64
        } else if self.length_field_length == 8 {
            let lo = u32_from_le(buf[o], buf[o + 1], buf[o + 2], buf[o + 3]) as u64;
            let hi = u32_from_le(buf[o + 4], buf[o + 5], buf[o + 6], buf[o + 7]) as u64;
            proof {
                assert(hi * 0x1_0000_0000 + lo <= u64::MAX) by (nonlinear_arith)
                    requires
                        hi < 0x1_0000_0000,
                        lo < 0x1_0000_0000,
                ;
            }
            lo + hi * 0x1_0000_0000
        } else {
            return Err(ParseError::InvalidLengthFieldSize { size: self.length_field_length });
        };
        let signed: isize = field_value as isize;
        let sum: isize = signed + self.length_adjustment;
        let frame_length = sum as usize;
        if frame_length > self.max_frame_length {
            return Err(
                ParseError::FrameTooLarge { max_size: self.max_frame_length, actual_size: frame_length },
            );
        }
        Ok(Some(frame_length))
    }

    /// Takes the frame at the front of `src` off once it is all there;
    /// empties `src` when the length is refused.
    pub fn decode_frame(&mut self, src: &mut Vec<u8>) -> (r: ParseResult<Option<Vec<u8>>>)
        requires
            old(self).reads_in_range(old(src)@),
        ensures
            *final(self) == *old(self),
            match old(self).frame_length_of(old(src)@) {
                Ok(Some(n)) => if old(src)@.len() < n {
                    final(src)@ == old(src)@ && r matches Ok(None)
                } else {
                    r matches Ok(Some(f)) && f@ == old(src)@.take(n as int) && final(src)@
                        == old(src)@.skip(n as int)
                },
                Ok(None) => final(src)@ == old(src)@ && r matches Ok(None),
                Err(e) => final(src)@.len() == 0 && r == Err::<Option<Vec<u8>>, ParseError>(e),
            },
    {
        match self.decode_frame_length(src.as_slice()) {
            Ok(Some(frame_length)) => {
                if src.len() < frame_length {
                    Ok(None)
                } else {
                    let frame = vstd::slice::slice_to_vec(&src.as_slice()[0..frame_length]);
                    let rest = vstd::slice::slice_to_vec(&src.as_slice()[frame_length..src.len()]);
                    *src = rest;
                    Ok(Some(frame))
                }
            },
            Ok(None) => Ok(None),
            Err(e) => {
                src.clear();
                Err(e)
            },
        }
    }
}

/// The outcome of decoding frames one after another from `b` with the
/// framed codec, and the bytes `after` left: stop without error when no
/// complete frame is at the front; a malformed frame start empties the
/// buffer and fails; a frame that does not decode fails after being taken
/// off.
pub open spec fn decode_all_ok(
    max_frame_length: usize,
    validate_length: bool,
    b: Seq<u8>,
    after: Seq<u8>,
    r: ParseResult<Seq<Packet>>,
    decoded: int,
) -> bool
    decreases b.len(),
{
    match frame_end(max_frame_length, validate_length, b) {
        Ok(None) => after == b && (r matches Ok(s) && s.len() == 0) && decoded == 0,
        Err(e) => after.len() == 0 && r == Err::<Seq<Packet>, ParseError>(e) && decoded == 0,
        Ok(Some(n)) => if n == 0 || n > b.len() {
            false
        } else {
            ||| (exists|p: Packet| #[trigger] packet_parse_ok(b.take(n as int), Ok(p)) && match r {
                Ok(s) => s.len() > 0 && s[0] == p && decode_all_ok(
                    max_frame_length,
                    validate_length,
                    b.skip(n as int),
                    after,
                    Ok(s.drop_first()),
                    decoded - 1,
                ),
                Err(e) => decode_all_ok(
                    max_frame_length,
                    validate_length,
                    b.skip(n as int),
                    after,
                    Err(e),
                    decoded - 1,
                ),
            })
            ||| (exists|e: ParseError| #[trigger] packet_parse_ok(b.take(n as int), Err(e)) && after
                == b.skip(n as int) && r == Err::<Seq<Packet>, ParseError>(e) && decoded == 0)
        },
    }
}

/// Decoded packets `prefix` followed by the outcome `rest` of decoding what
/// comes after them.
pub open spec fn packets_after(prefix: Seq<Packet>, rest: ParseResult<Seq<Packet>>) -> ParseResult<
    Seq<Packet>,
> {
    match rest {
        Ok(s) => Ok(prefix + s),
        Err(e) => Err(e),
    }
}

/// Counts of a stream processor.
#[derive(Debug, Clone, Copy, PartialEq, Eq, Structural)]
pub struct StreamStats {
    /// packets decoded
    pub packet_count: usize,
    /// bytes fed
    pub bytes_processed: usize,
    /// bytes buffered
    pub buffer_size: usize,
}

/// Buffers a byte stream and decodes the frames in it, counting packets and
/// bytes.
#[derive(Debug)]
pub struct StreamProcessor {
    /// bytes not yet decoded
    pub buffer: Vec<u8>,
    /// the framed codec
    pub codec: GB26875FramedCodec,
    /// packets decoded
    pub packet_count: usize,
    /// bytes fed
    pub bytes_processed: usize,
}

impl StreamProcessor {
    /// An empty processor.
    pub fn new() -> (r: Self)
        ensures
            r.buffer@.len() == 0,
            r.codec.max_frame_length == 8192 && r.codec.validate_length,
            r.packet_count == 0,
            r.bytes_processed == 0,
    {
        StreamProcessor {
            buffer: Vec::new(),
            codec: GB26875FramedCodec::new(),
            packet_count: 0,
            bytes_processed: 0,
        }
    }

    /// An empty processor whose buffer has room for `capacity` bytes.
    pub fn with_capacity(capacity: usize) -> (r: Self)
        ensures
            r.buffer@.len() == 0,
            r.codec.max_frame_length == 8192 && r.codec.validate_length,
            r.packet_count == 0,
            r.bytes_processed == 0,
    {
        StreamProcessor {
            buffer: Vec::with_capacity(capacity),
            codec: GB26875FramedCodec::new(),
            packet_count: 0,
            bytes_processed: 0,
        }
    }

    /// Appends bytes to the buffer and counts them.
    pub fn feed(&mut self, data: &[u8])
        requires
            old(self).bytes_processed + data@.len() <= usize::MAX,
        ensures
            final(self).buffer@ == old(self).buffer@ + data@,
            final(self).bytes_processed == old(self).bytes_processed + data@.len(),
            final(self).packet_count == old(self).packet_count,
            final(self).codec == old(self).codec,
    {
        append_bytes(&mut self.buffer, data);
        self.bytes_processed = self.bytes_processed + data.len();
    }

    /// Decodes the frame at the front of the buffer, as the framed codec
    /// does, and counts the packet.
    pub fn try_decode(&mut self) -> (r: ParseResult<Option<Packet>>)
        requires
            old(self).packet_count < usize::MAX,
        ensures
            final(self).codec == old(self).codec,
            final(self).bytes_processed == old(self).bytes_processed,
            final(self).packet_count == old(self).packet_count + (if r matches Ok(Some(_)) {
                1int
            } else {
                0
            }),
            match frame_end(old(self).codec.max_frame_length, old(self).codec.validate_length, old(self).buffer@) {
                Ok(Some(n)) => final(self).buffer@ == old(self).buffer@.skip(n as int) && ((r matches Ok(Some(p))
                    && packet_parse_ok(old(self).buffer@.take(n as int), Ok(p))) || (r matches Err(e)
                    && packet_parse_ok(old(self).buffer@.take(n as int), Err(e)))),
                Ok(None) => final(self).buffer@ == old(self).buffer@ && r matches Ok(None),
                Err(e) => final(self).buffer@.len() == 0 && r == Err::<Option<Packet>, ParseError>(e),
            },
    {
        match self.codec.decode_frame(&mut self.buffer) {
            Ok(Some(packet)) => {
                self.packet_count = self.packet_count + 1;
                Ok(Some(packet))
            },
            Ok(None) => Ok(None),
            Err(e) => Err(e),
        }
    }

    /// Decodes frames until the buffer holds no complete one; stops at the
    /// first error.
    pub fn decode_all(&mut self) -> (r: ParseResult<Vec<Packet>>)
        requires
            old(self).packet_count + old(self).buffer@.len() < usize::MAX,
        ensures
            final(self).codec == old(self).codec,
            final(self).bytes_processed == old(self).bytes_processed,
            final(self).packet_count >= old(self).packet_count,
            r matches Ok(v) ==> final(self).packet_count == old(self).packet_count + v@.len(),
            decode_all_ok(
                old(self).codec.max_frame_length,
                old(self).codec.validate_length,
                old(self).buffer@,
                final(self).buffer@,
                match r {
                    Ok(v) => Ok(v@),
                    Err(e) => Err(e),
                },
                final(self).packet_count - old(self).packet_count,
            ),
    {
        let mut packets: Vec<Packet> = Vec::new();
        let ghost max = self.codec.max_frame_length;
        let ghost validate = self.codec.validate_length;
        proof {
            assert forall|after: Seq<u8>, rest: ParseResult<Seq<Packet>>, d: int|
                #[trigger] decode_all_ok(max, validate, self.buffer@, after, rest, d) implies decode_all_ok(
                    max,
                    validate,
                    old(self).buffer@,
                    after,
                    packets_after(packets@, rest),
                    d + packets@.len(),
                ) by {
                if let Ok(s) = rest {
                    assert(packets@ + s =~= s);
                }
            }
        }
        loop
            invariant
                self.codec == old(self).codec,
                max == self.codec.max_frame_length,
                validate == self.codec.validate_length,
                self.bytes_processed == old(self).bytes_processed,
                self.buffer@.len() <= old(self).buffer@.len(),
                self.packet_count == old(self).packet_count + packets@.len(),
                self.packet_count + self.buffer@.len() < usize::MAX,
                packets@.len() + self.buffer@.len() <= old(self).buffer@.len(),
                forall|after: Seq<u8>, rest: ParseResult<Seq<Packet>>, d: int|
                    #[trigger] decode_all_ok(max, validate, self.buffer@, after, rest, d)
                        ==> decode_all_ok(
                        max,
                        validate,
                        old(self).buffer@,
                        after,
                        packets_after(packets@, rest),
                        d + packets@.len(),
                    ),
            decreases self.buffer@.len(),
        {
            let ghost b = self.buffer@;
            let ghost prefix = packets@;
            match self.try_decode() {
                Ok(Some(packet)) => {
                    packets.push(packet);
                    proof {
                        let n = match frame_end(max, validate, b) {
                            Ok(Some(n)) => n,
                            _ => 0,
                        };
                        assert forall|after: Seq<u8>, rest: ParseResult<Seq<Packet>>, d: int|
                            #[trigger] decode_all_ok(max, validate, self.buffer@, after, rest, d)
                                implies decode_all_ok(
                                max,
                                validate,
                                old(self).buffer@,
                                after,
                                packets_after(packets@, rest),
                                d + packets@.len(),
                            ) by {
                            let here = packets_after(seq![packet], rest);
                            if let Ok(s) = rest {
                                assert((seq![packet] + s).drop_first() =~= s);
                                assert(prefix + (seq![packet] + s) =~= packets@ + s);
                            }
                            assert(packet_parse_ok(b.take(n as int), Ok(packet)));
                            assert(decode_all_ok(max, validate, b, after, here, d + 1));
                        }
                    }
                },
                Ok(None) => {
                    proof {
                        let empty: Seq<Packet> = Seq::empty();
                        assert(decode_all_ok(max, validate, b, self.buffer@, Ok(empty), 0));
                        assert(prefix + empty =~= prefix);
                    }
                    return Ok(packets);
                },
                Err(e) => {
                    proof {
                        match frame_end(max, validate, b) {
                            Ok(Some(n)) => {
                                assert(packet_parse_ok(b.take(n as int), Err(e)));
                            },
                            _ => {},
                        }
                        assert(decode_all_ok(max, validate, b, self.buffer@, Err(e), 0));
                    }
                    return Err(e);
                },
            }
        }
    }

    /// Appends a packet's frame bytes to the buffer.
    pub fn encode(&mut self, packet: &Packet) -> (r: EncodeResult<()>)
        ensures
            r is Ok <==> packet.data_bytes().len() <= 1024,
            r is Ok ==> final(self).buffer@ == old(self).buffer@ + packet.spec_bytes(),
            r is Err ==> final(self).buffer@ == old(self).buffer@,
            final(self).codec == old(self).codec,
            final(self).packet_count == old(self).packet_count,
            final(self).bytes_processed == old(self).bytes_processed,
    {
        match packet.encode() {
            Ok(encoded) => {
                append_bytes(&mut self.buffer, encoded.as_slice());
                Ok(())
            },
            Err(e) => Err(e),
        }
    }

    /// The buffered bytes.
    pub fn buffer(&self) -> (r: &[u8])
        ensures
            r@ == self.buffer@,
    {
        self.buffer.as_slice()
    }

    /// Empties the buffer.
    pub fn clear(&mut self)
        ensures
            final(self).buffer@.len() == 0,
            final(self).codec == old(self).codec,
            final(self).packet_count == old(self).packet_count,
            final(self).bytes_processed == old(self).bytes_processed,
    {
        self.buffer.clear();
    }

    /// The counts and the buffer size.
    pub fn stats(&self) -> (r: StreamStats)
        ensures
            r.packet_count == self.packet_count,
            r.bytes_processed == self.bytes_processed,
            r.buffer_size == self.buffer@.len(),
    {
        StreamStats {
            packet_count: self.packet_count,
            bytes_processed: self.bytes_processed,
            buffer_size: self.buffer.len(),
        }
    }

    /// Sets the counts back to zero.
    pub fn reset_stats(&mut self)
        ensures
            final(self).packet_count == 0,
            final(self).bytes_processed == 0,
            final(self).buffer@ == old(self).buffer@,
            final(self).codec == old(self).codec,
    {
        self.packet_count = 0;
        self.bytes_processed = 0;
    }
}

impl Default for StreamProcessor {
    fn default() -> (r: Self)
        ensures
            r.buffer@.len() == 0,
            r.packet_count == 0,
            r.bytes_processed == 0,
    {
        Self::new()
    }
}

} // verus!
