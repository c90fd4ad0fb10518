//! Stream parsing: frame validation, frame boundary detection, buffering,
//! and packet parsers built on the frame detector.
pub mod buffer;
pub mod frame_parser;
pub mod validator;

use crate::error::{ParseError, ParseResult};
use crate::frame::packet::{packet_parse_ok, Packet};
use frame_parser::{detect, lemma_detect_frame_progress, FrameDetectorView};
use vstd::prelude::*;

pub use buffer::{BufferError, BufferStats, StreamBuffer};
pub use frame_parser::{DetectorState, FrameDetector};
pub use validator::DataValidator;

verus! {

/// Parsing statistics.
#[derive(Debug, Clone, Copy, PartialEq, Eq, Structural)]
pub struct ParseStats {
    /// packets parsed
    pub packets_parsed: u64,
    /// frames that failed to parse
    pub parse_errors: u64,
    /// frames whose checksum did not match
    pub checksum_errors: u64,
    /// bytes thrown away
    pub bytes_discarded: u64,
}

/// All counters zero.
pub open spec fn zero_stats() -> ParseStats {
    ParseStats { packets_parsed: 0, parse_errors: 0, checksum_errors: 0, bytes_discarded: 0 }
}

impl Default for ParseStats {
    fn default() -> (r: Self)
        ensures
            r == zero_stats(),
    {
        ParseStats { packets_parsed: 0, parse_errors: 0, checksum_errors: 0, bytes_discarded: 0 }
    }
}

/// The statistics after parsing a frame with result `r`.
pub open spec fn stats_after(s: ParseStats, r: ParseResult<Packet>) -> ParseStats {
    match r {
        Ok(_) => ParseStats { packets_parsed: (s.packets_parsed + 1) as u64, ..s },
        Err(ParseError::ChecksumMismatch { .. }) => ParseStats {
            checksum_errors: (s.checksum_errors + 1) as u64,
            parse_errors: (s.parse_errors + 1) as u64,
            ..s
        },
        Err(_) => ParseStats { parse_errors: (s.parse_errors + 1) as u64, ..s },
    }
}

/// Whether no counter is at its maximum.
pub open spec fn stats_can_count(s: ParseStats) -> bool {
    s.packets_parsed < u64::MAX && s.parse_errors < u64::MAX && s.checksum_errors < u64::MAX
}

/// What a packet parser holds: the frame detector and the statistics.
pub struct PacketParserView {
    pub detector: FrameDetectorView,
    pub stats: ParseStats,
}

/// Parses packets out of a byte stream.
pub struct PacketParser {
    detector: FrameDetector,
    stats: ParseStats,
}

impl View for PacketParser {
    type V = PacketParserView;

    closed spec fn view(&self) -> PacketParserView {
        PacketParserView { detector: self.detector@, stats: self.stats }
    }
}

impl PacketParser {
    /// A parser with an empty buffer and zero statistics.
    pub fn new() -> (r: Self)
        ensures
            r@.detector.state == DetectorState::SearchingStart,
            r@.detector.buffer == Seq::<u8>::empty(),
            r@.stats == zero_stats(),
    {
        PacketParser { detector: FrameDetector::new(), stats: ParseStats::default() }
    }

    /// Same as `new`; the capacity is a hint for the buffer.
    pub fn with_capacity(capacity: usize) -> (r: Self)
        ensures
            r@.detector.state == DetectorState::SearchingStart,
            r@.detector.buffer == Seq::<u8>::empty(),
            r@.stats == zero_stats(),
    {
        PacketParser { detector: FrameDetector::with_capacity(capacity), stats: ParseStats::default() }
    }

    /// Feeds `data` to the frame detector; a frame it hands out is parsed as
    /// a packet and counted: parsed, or failed (and, for a checksum
    /// mismatch, also counted as such).
    pub fn parse(&mut self, data: &[u8]) -> (r: ParseResult<Option<Packet>>)
        requires
            stats_can_count(old(self)@.stats),
        ensures
            frame_parser::detector_inv(old(self)@.detector.state, old(self)@.detector.buffer),
            ({
                let out = detect(old(self)@.detector.state, old(self)@.detector.buffer + data@);
                &&& final(self)@.detector == (FrameDetectorView {
                    state: out.state,
                    buffer: out.buffer,
                })
                &&& match out.result {
                    Ok(None) => r matches Ok(None) && final(self)@.stats == old(self)@.stats,
                    Ok(Some(f)) => {
                        let pr = match r {
                            Ok(Some(p)) => Ok(p),
                            Ok(None) => Err(ParseError::Checksum),
                            Err(e) => Err(e),
                        };
                        &&& !(r matches Ok(None))
                        &&& packet_parse_ok(f, pr)
                        &&& final(self)@.stats == stats_after(old(self)@.stats, pr)
                    },
                    Err((size, max_size)) => r matches Err(
                        ParseError::DataUnitTooLarge { size: s, max_size: m },
                    ) && s == size && m == max_size && final(self)@.stats == old(self)@.stats,
                }
            }),
    {
        let frame = match self.detector.feed(data) {
            Ok(Some(f)) => f,
            Ok(None) => {
                return Ok(None);
            },
            Err(e) => {
                return Err(e);
            },
        };
        match Packet::parse(frame.as_slice()) {
            Ok(packet) => {
                self.stats.packets_parsed = self.stats.packets_parsed + 1;
                Ok(Some(packet))
            },
            Err(ParseError::ChecksumMismatch { expected, actual }) => {
                self.stats.checksum_errors = self.stats.checksum_errors + 1;
                self.stats.parse_errors = self.stats.parse_errors + 1;
                Err(ParseError::ChecksumMismatch { expected, actual })
            },
            Err(e) => {
                self.stats.parse_errors = self.stats.parse_errors + 1;
                Err(e)
            },
        }
    }

    /// Clears the detector; the statistics are kept.
    pub fn reset(&mut self)
        ensures
            final(self)@.detector.state == DetectorState::SearchingStart,
            final(self)@.detector.buffer == Seq::<u8>::empty(),
            final(self)@.stats == old(self)@.stats,
    {
        self.detector.reset();
    }

    /// The statistics.
    pub fn stats(&self) -> (r: &ParseStats)
        ensures
            *r == self@.stats,
    {
        &self.stats
    }

    /// Sets every counter to zero.
    pub fn reset_stats(&mut self)
        ensures
            final(self)@.stats == zero_stats(),
            final(self)@.detector == old(self)@.detector,
    {
        self.stats = ParseStats::default();
    }

    /// Number of buffered bytes.
    pub fn buffer_len(&self) -> (r: usize)
        ensures
            r == self@.detector.buffer.len(),
    {
        self.detector.buffer_len()
    }

    /// Whether bytes are buffered.
    pub fn has_pending_data(&self) -> (r: bool)
        ensures
            r == (self@.detector.buffer.len() > 0),
    {
        self.detector.has_pending_data()
    }
}

impl Default for PacketParser {
    fn default() -> (r: Self)
        ensures
            r@.detector.state == DetectorState::SearchingStart,
            r@.detector.buffer == Seq::<u8>::empty(),
            r@.stats == zero_stats(),
    {
        Self::new()
    }
}

/// Whether every counter can still be raised `n` times.
pub open spec fn stats_room(s: ParseStats, n: int) -> bool {
    &&& s.packets_parsed + n < u64::MAX
    &&& s.parse_errors + n < u64::MAX
    &&& s.checksum_errors + n < u64::MAX
}

/// The parser state after a batch and the batch's outcome, from detector
/// state `s` with the bytes `b` (buffer and input) and statistics `st`: the
/// detector is run again and again; each frame it hands out is parsed and
/// counted, and the batch stops when no complete frame is left (with the
/// packets found, in order), at an oversize length, or at a frame that does
/// not parse (with that error).
pub open spec fn batch_parse_ok(
    s: DetectorState,
    b: Seq<u8>,
    st: ParseStats,
    fin: PacketParserView,
    r: ParseResult<Seq<Packet>>,
) -> bool
    decreases b.len(),
{
    let out = detect(s, b);
    let det = FrameDetectorView { state: out.state, buffer: out.buffer };
    match out.result {
        Ok(None) => fin == (PacketParserView { detector: det, stats: st }) && (r matches Ok(v)
            && v.len() == 0),
        Err((size, max_size)) => fin == (PacketParserView { detector: det, stats: st }) && (r matches Err(
            ParseError::DataUnitTooLarge { size: a, max_size: m },
        ) && a == size && m == max_size),
        Ok(Some(f)) => if out.buffer.len() < b.len() {
            ||| (exists|p: Packet| #[trigger] packet_parse_ok(f, Ok(p)) && match r {
                Ok(v) => v.len() > 0 && v[0] == p && batch_parse_ok(
                    out.state,
                    out.buffer,
                    stats_after(st, Ok(p)),
                    fin,
                    Ok(v.drop_first()),
                ),
                Err(e) => batch_parse_ok(out.state, out.buffer, stats_after(st, Ok(p)), fin, Err(e)),
            })
            ||| (exists|e: ParseError| #[trigger] packet_parse_ok(f, Err(e)) && r == Err::<
                Seq<Packet>,
                ParseError,
            >(e) && fin == (PacketParserView { detector: det, stats: stats_after(st, Err(e)) }))
        } else {
            false
        },
    }
}

/// Packets `prefix` followed by the outcome `rest`.
pub open spec fn packets_then(prefix: Seq<Packet>, rest: ParseResult<Seq<Packet>>) -> ParseResult<
    Seq<Packet>,
> {
    match rest {
        Ok(v) => Ok(prefix + v),
        Err(e) => Err(e),
    }
}

/// Parses all the packets in a block of bytes.
pub struct BatchParser {
    parser: PacketParser,
}

impl View for BatchParser {
    type V = PacketParserView;

    closed spec fn view(&self) -> PacketParserView {
        self.parser@
    }
}

impl BatchParser {
    /// A batch parser with an empty buffer and zero statistics.
    pub fn new() -> (r: Self)
        ensures
            r@.detector.state == DetectorState::SearchingStart,
            r@.detector.buffer == Seq::<u8>::empty(),
            r@.stats == zero_stats(),
    {
        BatchParser { parser: PacketParser::new() }
    }

    /// Feeds `data` to the detector and parses every complete frame it
    /// holds, in order; stops at an oversize length or at a frame that does
    /// not parse, with that error. Empty input changes nothing.
    pub fn parse_all(&mut self, data: &[u8]) -> (r: ParseResult<Vec<Packet>>)
        requires
            stats_room(old(self)@.stats, old(self)@.detector.buffer.len() + data@.len() as int),
        ensures
            data@.len() == 0 ==> final(self)@ == old(self)@ && (r matches Ok(v) && v@.len() == 0),
            data@.len() > 0 ==> batch_parse_ok(
                old(self)@.detector.state,
                old(self)@.detector.buffer + data@,
                old(self)@.stats,
                final(self)@,
                match r {
                    Ok(v) => Ok(v@),
                    Err(e) => Err(e),
                },
            ),
    {
        let mut packets: Vec<Packet> = Vec::new();
        if data.len() == 0 {
            return Ok(packets);
        }
        let empty: [u8; 0] = [];
        let ghost b0 = old(self)@.detector.buffer + data@;
        let ghost st0 = old(self)@.stats;
        let mut first = true;
        let ghost mut cur: Seq<u8> = b0;
        loop
            invariant
                first ==> self@ == old(self)@ && cur == b0,
                !first ==> cur == self@.detector.buffer && self@.detector.state
                    == DetectorState::SearchingStart,
                data@.len() > 0,
                b0 == old(self)@.detector.buffer + data@,
                st0 == old(self)@.stats,
                stats_room(self@.stats, cur.len() as int),
                forall|fin: PacketParserView, rest: ParseResult<Seq<Packet>>|
                    #[trigger] batch_parse_ok(self@.detector.state, cur, self@.stats, fin, rest)
                        ==> batch_parse_ok(
                        old(self)@.detector.state,
                        b0,
                        st0,
                        fin,
                        packets_then(packets@, rest),
                    ),
            decreases cur.len(), (if first { 1int } else { 0int }),
        {
            let ghost s_before = self@;
            let ghost b = cur;
            let input: &[u8] = if first { data } else { &empty };
            proof {
                if !first {
                    assert(self@.detector.buffer + input@ =~= b);
                }
            }
            let res = self.parser.parse(input);
            proof {
                lemma_detect_frame_progress(s_before.detector.state, b);
            }
            first = false;
            proof {
                cur = self@.detector.buffer;
            }
            match res {
                Ok(Some(packet)) => {
                    let ghost prefix = packets@;
                    packets.push(packet);
                    proof {
                        let out = detect(s_before.detector.state, b);
                        let f = out.result->Ok_0->Some_0;
                        assert(packet_parse_ok(f, Ok(packet)));
                        assert forall|fin: PacketParserView, rest: ParseResult<Seq<Packet>>|
                            #[trigger] batch_parse_ok(self@.detector.state, cur, self@.stats, fin, rest)
                                implies batch_parse_ok(
                                old(self)@.detector.state,
                                b0,
                                st0,
                                fin,
                                packets_then(packets@, rest),
                            ) by {
                            let here = packets_then(seq![packet], rest);
                            if let Ok(v) = rest {
                                assert((seq![packet] + v).drop_first() =~= v);
                                assert(prefix + (seq![packet] + v) =~= packets@ + v);
                            }
                            assert(batch_parse_ok(s_before.detector.state, b, s_before.stats, fin, here));
                        }
                    }
                },
                Ok(None) => {
                    proof {
                        let empty_v: Seq<Packet> = Seq::empty();
                        assert(batch_parse_ok(s_before.detector.state, b, s_before.stats, self@, Ok(empty_v)));
                        assert(packets@ + empty_v =~= packets@);
                    }
                    return Ok(packets);
                },
                Err(e) => {
                    proof {
                        let out = detect(s_before.detector.state, b);
                        if let Ok(Some(f)) = out.result {
                            assert(packet_parse_ok(f, Err(e)));
                        }
                        assert(batch_parse_ok(s_before.detector.state, b, s_before.stats, self@, Err(e)));
                    }
                    return Err(e);
                },
            }
        }
    }

    /// The statistics.
    pub fn stats(&self) -> (r: &ParseStats)
        ensures
            *r == self@.stats,
    {
        self.parser.stats()
    }

    /// Clears the detector; the statistics are kept.
    pub fn reset(&mut self)
        ensures
            final(self)@.detector.state == DetectorState::SearchingStart,
            final(self)@.detector.buffer == Seq::<u8>::empty(),
            final(self)@.stats == old(self)@.stats,
    {
        self.parser.reset();
    }
}

impl Default for BatchParser {
    fn default() -> (r: Self)
        ensures
            r@.detector.state == DetectorState::SearchingStart,
            r@.detector.buffer == Seq::<u8>::empty(),
            r@.stats == zero_stats(),
    {
        Self::new()
    }
}

/// The bytes of several packets one after another.
pub open spec fn packets_bytes(ps: Seq<Packet>) -> Seq<u8>
    decreases ps.len(),
{
    if ps.len() == 0 {
        Seq::empty()
    } else {
        ps[0].spec_bytes() + packets_bytes(ps.drop_first())
    }
}

/// Whether `v` holds, one for one, packets with the control units and data
/// units of `ps`.
pub open spec fn same_packets(v: Seq<Packet>, ps: Seq<Packet>) -> bool {
    &&& v.len() == ps.len()
    &&& forall|i: int|
        0 <= i < ps.len() ==> (#[trigger] v[i]).control_unit == ps[i].control_unit && v[i].spec_data()
            == ps[i].spec_data()
}

/// A batch over the bytes of representable packets one after another, from
/// a detector searching with an empty buffer, gives all those packets in
/// order and leaves the buffer empty.
pub proof fn law_batch_parser_finds_all_packets(
    ps: Seq<Packet>,
    st: ParseStats,
    fin: PacketParserView,
    r: ParseResult<Seq<Packet>>,
)
    requires
        forall|i: int| 0 <= i < ps.len() ==> (#[trigger] ps[i]).wire_representable(),
        batch_parse_ok(DetectorState::SearchingStart, packets_bytes(ps), st, fin, r),
    ensures
        r matches Ok(v) && same_packets(v, ps),
        fin.detector.buffer.len() == 0,
    decreases ps.len(),
{
    let b = packets_bytes(ps);
    if ps.len() == 0 {
        assert(b =~= Seq::<u8>::empty());
        assert(frame_parser::first_start_from(b, 0) is None);
        if let Ok(v) = r {
            assert(v =~= Seq::<Packet>::empty());
        }
    } else {
        let p = ps[0];
        let a = p.spec_bytes();
        let rest = ps.drop_first();
        let tail = packets_bytes(rest);
        assert(forall|i: int| 0 <= i < rest.len() ==> (#[trigger] rest[i]).wire_representable()) by {
            assert forall|i: int| 0 <= i < rest.len() implies (#[trigger] rest[i]).wire_representable() by {
                assert(rest[i] == ps[i + 1]);
            }
        }
        crate::frame::packet::law_packet_bytes_roundtrip(p);
        crate::codec::packet_codec::lemma_stream_frame_facts(p, tail);
        assert(a + tail =~= a + tail);
        assert(a.take(a.len() as int) =~= a);
        assert(a[24] == (a + tail)[24] && a[25] == (a + tail)[25]);
        assert(frame_parser::whole_frame(a));
        frame_parser::law_detector_hands_out_frame(a, tail);
        assert(b == a + tail);
        if exists|e: ParseError| #[trigger] packet_parse_ok(a, Err(e)) {
            let e = choose|e: ParseError| #[trigger] packet_parse_ok(a, Err(e));
            assert(!packet_parse_ok(a, Err(e)));
        }
        let q = choose|q: Packet|
            #[trigger] packet_parse_ok(a, Ok(q)) && match r {
                Ok(v) => v.len() > 0 && v[0] == q && batch_parse_ok(
                    DetectorState::SearchingStart,
                    tail,
                    stats_after(st, Ok(q)),
                    fin,
                    Ok(v.drop_first()),
                ),
                Err(e) => batch_parse_ok(
                    DetectorState::SearchingStart,
                    tail,
                    stats_after(st, Ok(q)),
                    fin,
                    Err(e),
                ),
            };
        match r {
            Ok(v) => {
                law_batch_parser_finds_all_packets(rest, stats_after(st, Ok(q)), fin, Ok(v.drop_first()));
                assert forall|i: int| 0 <= i < ps.len() implies (#[trigger] v[i]).control_unit
                    == ps[i].control_unit && v[i].spec_data() == ps[i].spec_data() by {
                    if i > 0 {
                        assert(v[i] == v.drop_first()[i - 1]);
                        assert(ps[i] == rest[i - 1]);
                    }
                }
            },
            Err(e) => {
                law_batch_parser_finds_all_packets(rest, stats_after(st, Ok(q)), fin, Err(e));
            },
        }
    }
}

} // verus!
