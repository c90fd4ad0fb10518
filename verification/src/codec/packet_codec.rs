//! Packet codec: whole-frame encoding and decoding with an integrity check,
//! and a streaming decoder that finds frames in a growing buffer.
use crate::codec::traits::{Decoder, Encoder};
use crate::error::{EncodeResult, ParseError, ParseResult};
use crate::frame::checksum::{calculate_checksum, checksum_of};
use crate::frame::header::{control_unit_bytes_ok, control_unit_of_bytes, control_unit_parse_ok, ControlUnit};
use crate::frame::packet::Packet;
use crate::wire::{append_bytes, le16};
use vstd::prelude::*;

verus! {

/// The outcome of the integrity check of a whole frame `b`: length, start
/// marker, end marker (the last two bytes), checksum (third byte from the
/// end, over all bytes between start marker and checksum).
pub open spec fn integrity_ok(b: Seq<u8>, r: ParseResult<()>) -> bool {
    let n = b.len() as int;
    let start_ok = b[0] == 0x40 && b[1] == 0x40;
    let end_ok = b[n - 2] == 0x23 && b[n - 1] == 0x23;
    let sum = checksum_of(b.subrange(2, n - 3));
    &&& r is Ok <==> (n >= 30 && start_ok && end_ok && sum == b[n - 3])
    &&& n < 30 ==> (r matches Err(ParseError::InsufficientData { expected, actual })
        && expected == 30 && actual == n)
    &&& n >= 30 && !start_ok ==> (r matches Err(ParseError::InvalidFrameStart { expected, found })
        && expected@ == seq![0x40u8, 0x40u8] && found@ == seq![b[0], b[1]])
    &&& n >= 30 && start_ok && !end_ok ==> (r matches Err(
        ParseError::InvalidFrameEnd { expected, found },
    ) && expected@ == seq![0x23u8, 0x23u8] && found@ == seq![b[n - 2], b[n - 1]])
    &&& n >= 30 && start_ok && end_ok && sum != b[n - 3] ==> (r matches Err(
        ParseError::ChecksumMismatch { expected, actual },
    ) && expected == sum && actual == b[n - 3])
}

/// The outcome of decoding a whole frame with the packet codec: the
/// integrity check, then the control unit, then the declared data unit,
/// which must end before the checksum.
pub open spec fn packet_codec_decode_ok(b: Seq<u8>, r: ParseResult<Packet>) -> bool {
    let n = b.len() as int;
    let cub = b.subrange(2, 27);
    let len = control_unit_of_bytes(cub).data_unit_len as int;
    let checked = integrity_ok(b, Ok(()));
    &&& r is Ok <==> (checked && control_unit_bytes_ok(cub) && 27 + len <= n - 3)
    &&& r matches Ok(p) ==> p.control_unit == control_unit_of_bytes(cub) && p.spec_data() == (if len
        == 0 {
        None
    } else {
        Some(b.subrange(27, 27 + len))
    })
    &&& !checked ==> (r matches Err(e) && integrity_ok(b, Err(e)))
    &&& checked && !control_unit_bytes_ok(cub) ==> (r matches Err(e) && control_unit_parse_ok(
        cub,
        Err(e),
    ))
    &&& checked && control_unit_bytes_ok(cub) && 27 + len > n - 3 ==> (r matches Err(
        ParseError::DataUnitLengthMismatch { declared, actual },
    ) && declared == len && actual == n - 30)
}

/// Encodes and decodes whole packets.
#[derive(Debug, Clone, Copy, PartialEq, Eq, Structural)]
pub struct PacketCodec;

impl PacketCodec {
    /// Creates the codec.
    pub fn new() -> (r: Self)
        ensures
            r == PacketCodec,
    {
        Self
    }

    /// Checks length, markers and checksum of a whole frame.
    pub fn validate_packet_integrity(data: &[u8]) -> (r: ParseResult<()>)
        ensures
            integrity_ok(data@, r),
    {
        let n = data.len();
        if n < 30 {
            return Err(ParseError::InsufficientData { expected: 30, actual: n });
        }
        if data[0] != 0x40 || data[1] != 0x40 {
            let mut expected: Vec<u8> = Vec::new();
            expected.push(0x40);
            expected.push(0x40);
            let mut found: Vec<u8> = Vec::new();
            found.push(data[0]);
            found.push(data[1]);
            proof {
                assert(expected@ =~= seq![0x40u8, 0x40u8]);
                assert(found@ =~= seq![data@[0], data@[1]]);
            }
            return Err(ParseError::InvalidFrameStart { expected, found });
        }
        if data[n - 2] != 0x23 || data[n - 1] != 0x23 {
            let mut expected: Vec<u8> = Vec::new();
            expected.push(0x23);
            expected.push(0x23);
            let mut found: Vec<u8> = Vec::new();
            found.push(data[n - 2]);
            found.push(data[n - 1]);
            proof {
                assert(expected@ =~= seq![0x23u8, 0x23u8]);
                assert(found@ =~= seq![data@[n - 2], data@[n - 1]]);
            }
            return Err(ParseError::InvalidFrameEnd { expected, found });
        }
        let checksum_pos = n - 3;
        let control_unit = &data[2..27];
        let data_unit = &data[27..checksum_pos];
        let calculated = calculate_checksum(control_unit, data_unit);
        proof {
            assert(control_unit@ + data_unit@ =~= data@.subrange(2, n - 3));
        }
        let packet_checksum = data[checksum_pos];
        if calculated != packet_checksum {
            return Err(ParseError::ChecksumMismatch { expected: calculated, actual: packet_checksum });
        }
        Ok(())
    }

    /// The control unit and the declared data unit of a frame of at least
    /// 30 bytes; the data unit must end before the checksum.
    pub fn extract_packet_components(data: &[u8]) -> (r: ParseResult<(ControlUnit, Option<Vec<u8>>)>)
        requires
            data@.len() >= 30,
        ensures
            ({
                let n = data@.len() as int;
                let cub = data@.subrange(2, 27);
                let len = control_unit_of_bytes(cub).data_unit_len as int;
                &&& r is Ok <==> (control_unit_bytes_ok(cub) && 27 + len <= n - 3)
                &&& r matches Ok((cu, du)) ==> cu == control_unit_of_bytes(cub) && (match du {
                    Some(d) => len > 0 && d@ == data@.subrange(27, 27 + len),
                    None => len == 0,
                })
                &&& !control_unit_bytes_ok(cub) ==> (r matches Err(e) && control_unit_parse_ok(
                    cub,
                    Err(e),
                ))
                &&& control_unit_bytes_ok(cub) && 27 + len > n - 3 ==> (r matches Err(
                    ParseError::DataUnitLengthMismatch { declared, actual },
                ) && declared == len && actual == n - 30)
            }),
    {
        let control_unit = match ControlUnit::from_bytes(&data[2..27]) {
            Ok(cu) => cu,
            Err(e) => {
                return Err(e);
            },
        };
        let len = control_unit.data_unit_len as usize;
        let data_unit = if len > 0 {
            let data_end = 27 + len;
            if data_end > data.len() - 3 {
                return Err(
                    ParseError::DataUnitLengthMismatch { declared: len, actual: data.len() - 27 - 3 },
                );
            }
            Some(vstd::slice::slice_to_vec(&data[27..data_end]))
        } else {
            if 27 > data.len() - 3 {
                return Err(
                    ParseError::DataUnitLengthMismatch { declared: len, actual: data.len() - 27 - 3 },
                );
            }
            None
        };
        Ok((control_unit, data_unit))
    }
}

impl Encoder<Packet> for PacketCodec {
    /// The frame bytes of a packet, whatever its data unit length.
    fn encode(&self, packet: &Packet) -> (r: EncodeResult<Vec<u8>>)
        ensures
            r matches Ok(v) && v@ == packet.spec_bytes(),
    {
        let mut buf: Vec<u8> = Vec::new();
        buf.push(0x40);
        buf.push(0x40);
        let control_bytes = packet.control_unit.to_bytes();
        append_bytes(&mut buf, &control_bytes);
        let empty: Vec<u8> = Vec::new();
        let data: &[u8] = match &packet.data_unit {
            Some(d) => d.as_slice(),
            None => empty.as_slice(),
        };
        append_bytes(&mut buf, data);
        let checksum = calculate_checksum(&control_bytes, data);
        buf.push(checksum);
        buf.push(0x23);
        buf.push(0x23);
        proof {
            assert(data@ == packet.data_bytes());
            assert(buf@ =~= packet.spec_bytes());
        }
        Ok(buf)
    }
}

impl Decoder<Packet> for PacketCodec {
    /// Checks the frame, reads its control unit and data unit, and makes the
    /// packet.
    fn decode(&self, data: &[u8]) -> (r: ParseResult<Packet>)
        ensures
            packet_codec_decode_ok(data@, r),
    {
        match Self::validate_packet_integrity(data) {
            Ok(()) => {},
            Err(e) => {
                return Err(e);
            },
        }
        let (control_unit, data_unit) = match Self::extract_packet_components(data) {
            Ok(c) => c,
            Err(e) => {
                return Err(e);
            },
        };
        match Packet::new(control_unit, data_unit) {
            Ok(p) => Ok(p),
            Err(_) => Err(ParseError::InvalidPacket { reason: "Failed to create packet".to_owned() }),
        }
    }
}

/// The length of the frame at the front of `b` as the streaming decoder
/// reads it: `None` while fewer than 27 bytes are there, otherwise 30 plus
/// the length field, refused above 1054.
pub open spec fn streaming_frame_length(b: Seq<u8>) -> Option<int> {
    if b.len() < 27 {
        None
    } else {
        Some(30 + le16(b[24], b[25]))
    }
}

/// A streaming decoder of packets.
pub struct StreamingPacketCodec {
    buffer: Vec<u8>,
}

impl View for StreamingPacketCodec {
    type V = Seq<u8>;

    closed spec fn view(&self) -> Seq<u8> {
        self.buffer@
    }
}

/// First position of a start marker in `b`, if any.
pub open spec fn first_marker(b: Seq<u8>) -> Option<int> {
    crate::parser::frame_parser::first_start_from(b, 0)
}

/// The outcome of taking the next packet out of the buffer `b`, with the
/// buffer `after` it leaves: skip to the first start marker (empty the
/// buffer when there is none); wait while fewer than 30 bytes or fewer than
/// the frame's are there; refuse a length above 1054; take the frame out and
/// decode it, and when it does not decode go on with what follows it.
pub open spec fn stream_next_ok(b: Seq<u8>, after: Seq<u8>, r: ParseResult<Option<Packet>>) -> bool
    decreases b.len(),
{
    match first_marker(b) {
        None => after.len() == 0 && r matches Ok(None),
        Some(s) => {
            let c = b.skip(s);
            if s < 0 || s > b.len() || c.len() < 30 {
                after == c && r matches Ok(None)
            } else {
                let t = 30 + le16(c[24], c[25]);
                if t > 1054 {
                    after == c && (r matches Err(ParseError::DataUnitTooLarge { size, max_size })
                        && size == t - 30 && max_size == 1024)
                } else if c.len() < t {
                    after == c && r matches Ok(None)
                } else {
                    ||| (r matches Ok(Some(p)) && packet_codec_decode_ok(c.take(t), Ok(p)) && after
                        == c.skip(t))
                    ||| ((exists|e: ParseError| #[trigger] packet_codec_decode_ok(c.take(t), Err(e)))
                        && stream_next_ok(c.skip(t), after, r))
                }
            }
        },
    }
}

impl StreamingPacketCodec {
    /// A decoder with an empty buffer.
    pub fn new() -> (r: Self)
        ensures
            r@ == Seq::<u8>::empty(),
    {
        Self { buffer: Vec::new() }
    }

    /// Appends bytes to the buffer.
    pub fn feed(&mut self, data: &[u8])
        ensures
            final(self)@ == old(self)@ + data@,
    {
        append_bytes(&mut self.buffer, data);
    }

    /// Position of the first start marker in the buffer.
    fn find_frame_start(&self) -> (r: ParseResult<Option<usize>>)
        ensures
            r matches Ok(x) && match x {
                Some(p) => first_marker(self@) == Some(p as int),
                None => first_marker(self@) is None,
            },
    {
        let b = &self.buffer;
        if b.len() < 2 {
            return Ok(None);
        }
        let mut i: usize = 0;
        while i < b.len() - 1
            invariant
                b@.len() >= 2,
                i <= b@.len() - 1,
                b@ == self@,
                first_marker(b@) == crate::parser::frame_parser::first_start_from(b@, i as int),
            decreases b@.len() - i,
        {
            if b[i] == 0x40 && b[i + 1] == 0x40 {
                assert(crate::parser::frame_parser::start_marker_at(b@, i as int));
                return Ok(Some(i));
            }
            i = i + 1;
        }
        Ok(None)
    }

    /// The length of the frame at the front of the buffer, once 27 bytes
    /// are there; a length above 1054 is refused.
    fn calculate_packet_length(&self) -> (r: ParseResult<Option<usize>>)
        ensures
            match streaming_frame_length(self@) {
                None => r matches Ok(None),
                Some(t) => if t > 1054 {
                    r matches Err(ParseError::DataUnitTooLarge { size, max_size }) && size == t - 30
                        && max_size == 1024
                } else {
                    r matches Ok(Some(x)) && x == t
                },
            },
    {
        if self.buffer.len() < 27 {
            return Ok(None);
        }
        let n = crate::wire::u16_from_le(self.buffer[24], self.buffer[25]) as usize;
        let total = 30 + n;
        if total > 1054 {
            return Err(ParseError::DataUnitTooLarge { size: n, max_size: 1024 });
        }
        Ok(Some(total))
    }

    /// Skips to the first start marker (clearing the buffer when there is
    /// none), and once a whole frame is buffered takes it out and decodes
    /// it; a frame that does not decode is dropped and the search goes on.
    pub fn try_decode_next(&mut self) -> (r: ParseResult<Option<Packet>>)
        ensures
            stream_next_ok(old(self)@, final(self)@, r),
    {
        loop
            invariant
                forall|after: Seq<u8>, res: ParseResult<Option<Packet>>|
                    #[trigger] stream_next_ok(self@, after, res) ==> stream_next_ok(
                        old(self)@,
                        after,
                        res,
                    ),
            decreases self@.len(),
        {
            let ghost b0 = self@;
            let start = match self.find_frame_start() {
                Ok(s) => s,
                Err(e) => {
                    return Err(e);
                },
            };
            let start = match start {
                None => {
                    self.buffer = Vec::new();
                    proof {
                        assert(stream_next_ok(b0, self@, Ok(None)));
                    }
                    return Ok(None);
                },
                Some(s) => s,
            };
            proof {
                crate::parser::frame_parser::lemma_first_start_bounds(b0, 0);
            }
            if start > 0 {
                self.buffer = vstd::slice::slice_to_vec(&self.buffer.as_slice()[start..self.buffer.len()]);
            }
            proof {
                assert(self@ =~= b0.skip(start as int));
            }
            if self.buffer.len() < 30 {
                proof {
                    assert(stream_next_ok(b0, self@, Ok(None)));
                }
                return Ok(None);
            }
            let total = match self.calculate_packet_length() {
                Ok(Some(t)) => t,
                Ok(None) => {
                    return Ok(None);
                },
                Err(e) => {
                    proof {
                        assert(stream_next_ok(b0, self@, Err(e)));
                    }
                    return Err(e);
                },
            };
            if self.buffer.len() < total {
                proof {
                    assert(stream_next_ok(b0, self@, Ok(None)));
                }
                return Ok(None);
            }
            let ghost c = self@;
            let frame = vstd::slice::slice_to_vec(&self.buffer.as_slice()[0..total]);
            self.buffer = vstd::slice::slice_to_vec(&self.buffer.as_slice()[total..self.buffer.len()]);
            proof {
                assert(frame@ =~= c.take(total as int));
                assert(self@ =~= c.skip(total as int));
            }
            let codec = PacketCodec::new();
            match codec.decode(frame.as_slice()) {
                Ok(p) => {
                    proof {
                        assert(stream_next_ok(b0, self@, Ok(Some(p))));
                    }
                    return Ok(Some(p));
                },
                Err(e) => {
                    proof {
                        assert(packet_codec_decode_ok(c.take(total as int), Err(e)));
                        assert forall|after: Seq<u8>, res: ParseResult<Option<Packet>>|
                            #[trigger] stream_next_ok(self@, after, res) implies stream_next_ok(
                                b0,
                                after,
                                res,
                            ) by {
                            assert(stream_next_ok(b0, after, res));
                        }
                    }
                },
            }
        }
    }

    /// Empties the buffer.
    pub fn clear(&mut self)
        ensures
            final(self)@ == Seq::<u8>::empty(),
    {
        self.buffer = Vec::new();
    }

    /// Number of buffered bytes.
    pub fn buffer_len(&self) -> (r: usize)
        ensures
            r == self@.len(),
    {
        self.buffer.len()
    }
}

impl Default for StreamingPacketCodec {
    fn default() -> (r: Self)
        ensures
            r@ == Seq::<u8>::empty(),
    {
        Self::new()
    }
}

/// The facts about a packet's frame bytes that decoding reads.
proof fn lemma_encoded_frame(p: Packet)
    requires
        p.wire_representable(),
    ensures
        integrity_ok(p.spec_bytes(), Ok(())),
        control_unit_bytes_ok(p.spec_bytes().subrange(2, 27)),
        control_unit_of_bytes(p.spec_bytes().subrange(2, 27)) == p.control_unit,
        27 + p.data_bytes().len() <= p.spec_bytes().len() - 3,
        p.spec_bytes().subrange(27, 27 + p.data_bytes().len() as int) == p.data_bytes(),
{
    let b = p.spec_bytes();
    let d = p.data_bytes();
    let cub = p.control_unit.spec_bytes();
    let body = cub + d;
    let n = b.len() as int;
    crate::frame::header::law_control_unit_bytes_roundtrip(p.control_unit);
    assert(cub.len() == 25);
    assert(n == 30 + d.len());
    assert(b.subrange(2, n - 3) =~= body);
    assert(b.subrange(2, 27) =~= cub);
    assert(b.subrange(27, 27 + d.len() as int) =~= d);
    assert(b[n - 3] == checksum_of(body));
    assert(b[0] == 0x40 && b[1] == 0x40);
    assert(b[n - 2] == 0x23 && b[n - 1] == 0x23);
}

/// The packet codec reads back what it writes for every representable
/// packet.
pub proof fn law_packet_codec_roundtrip(p: Packet)
    requires
        p.wire_representable(),
    ensures
        exists|r: ParseResult<Packet>| #[trigger] packet_codec_decode_ok(p.spec_bytes(), r) && r
            is Ok,
        forall|r: ParseResult<Packet>|
            #[trigger] packet_codec_decode_ok(p.spec_bytes(), r) ==> (r matches Ok(q)
                && q.control_unit == p.control_unit && q.spec_data() == p.spec_data()),
{
    let b = p.spec_bytes();
    lemma_encoded_frame(p);
    let q = Packet { control_unit: p.control_unit, data_unit: p.data_unit };
    assert(packet_codec_decode_ok(b, Ok(q)));
}

/// The framing facts of a packet's bytes, followed by any bytes, that the
/// streaming decoder reads.
#[verifier::spinoff_prover]
pub(crate) proof fn lemma_stream_frame_facts(p: Packet, rest: Seq<u8>)
    requires
        p.wire_representable(),
    ensures
        first_marker(p.spec_bytes() + rest) == Some(0int),
        (p.spec_bytes() + rest).skip(0) == p.spec_bytes() + rest,
        p.spec_bytes().len() >= 30,
        30 + le16((p.spec_bytes() + rest)[24], (p.spec_bytes() + rest)[25]) == p.spec_bytes().len(),
        p.spec_bytes().len() <= 1054,
        (p.spec_bytes() + rest).take(p.spec_bytes().len() as int) == p.spec_bytes(),
        (p.spec_bytes() + rest).skip(p.spec_bytes().len() as int) == rest,
{
    let a = p.spec_bytes();
    let b = a + rest;
    let cub = p.control_unit.spec_bytes();
    let d = p.data_bytes();
    crate::frame::header::law_control_unit_bytes_roundtrip(p.control_unit);
    assert(cub.len() == 25);
    assert(a.len() == 30 + d.len());
    assert(a[0] == 0x40 && a[1] == 0x40);
    assert(b[0] == a[0] && b[1] == a[1]);
    assert(crate::parser::frame_parser::start_marker_at(b, 0));
    assert(crate::parser::frame_parser::first_start_from(b, 0) == Some(0int));
    assert(b.skip(0) =~= b);
    assert(a[24] == cub[22] && a[25] == cub[23]);
    assert(b[24] == a[24] && b[25] == a[25]);
    assert(b.take(a.len() as int) =~= a);
    assert(b.skip(a.len() as int) =~= rest);
}

/// A streaming decoder whose buffer begins with the bytes of a representable
/// packet hands out that packet and keeps exactly the bytes after it, so
/// frames that arrive stuck together come out one by one.
pub proof fn law_streaming_codec_reads_packet(p: Packet, rest: Seq<u8>)
    requires
        p.wire_representable(),
    ensures
        forall|after: Seq<u8>, r: ParseResult<Option<Packet>>|
            #[trigger] stream_next_ok(p.spec_bytes() + rest, after, r) ==> after == rest && (
            r matches Ok(Some(q)) && q.control_unit == p.control_unit && q.spec_data()
                == p.spec_data()),
{
    let a = p.spec_bytes();
    let b = a + rest;
    lemma_stream_frame_facts(p, rest);
    law_packet_codec_roundtrip(p);
    assert forall|after: Seq<u8>, r: ParseResult<Option<Packet>>|
        #[trigger] stream_next_ok(b, after, r) implies after == rest && (r matches Ok(Some(q))
            && q.control_unit == p.control_unit && q.spec_data() == p.spec_data()) by {
        let t = a.len() as int;
        assert(b.take(t) == a);
        if let Ok(Some(q)) = r {
            if packet_codec_decode_ok(a, Ok(q)) {
                assert(q.control_unit == p.control_unit);
            }
        }
        if exists|e: ParseError| #[trigger] packet_codec_decode_ok(a, Err(e)) {
            let e = choose|e: ParseError| #[trigger] packet_codec_decode_ok(a, Err(e));
            assert(packet_codec_decode_ok(a, Err(e)));
        }
    }
}

} // verus!
