//! Frame boundary detection in a byte stream: a state machine that skips to
//! the start marker, reads the data unit length from the control unit and
//! hands out each complete frame.
use crate::error::{ParseError, ParseResult};
use crate::protocol::{MAX_DATA_UNIT_SIZE, MAX_PACKET_SIZE};
use crate::wire::{append_bytes, le16, u16_from_le};
use vstd::prelude::*;

verus! {

/// State of the frame detector.
#[derive(Debug, Clone, Copy, PartialEq, Eq, Structural)]
pub enum DetectorState {
    /// looking for the start marker
    SearchingStart,
    /// reading a frame that begins at the front of the buffer
    ReadingData {
        /// the frame length, once the control unit has been read
        expected_total_len: Option<usize>,
    },
    /// after an oversized frame; the next input starts afresh
    Error,
}

/// What a detector holds: its state and the buffered bytes.
pub struct FrameDetectorView {
    pub state: DetectorState,
    pub buffer: Seq<u8>,
}

/// Whether a start marker `@@` begins at position `i` of `b`.
pub open spec fn start_marker_at(b: Seq<u8>, i: int) -> bool {
    0 <= i && i + 1 < b.len() && b[i] == 0x40 && b[i + 1] == 0x40
}

/// The first position at or after `i` where a start marker begins.
pub open spec fn first_start_from(b: Seq<u8>, i: int) -> Option<int>
    decreases b.len() - i,
{
    if i < 0 || i + 1 >= b.len() {
        None
    } else if start_marker_at(b, i) {
        Some(i)
    } else {
        first_start_from(b, i + 1)
    }
}

/// A start marker found from `i` on lies within the bytes.
pub proof fn lemma_first_start_bounds(b: Seq<u8>, i: int)
    ensures
        first_start_from(b, i) matches Some(p) ==> i <= p && start_marker_at(b, p),
    decreases b.len() - i,
{
    if !(i < 0 || i + 1 >= b.len()) && !start_marker_at(b, i) {
        lemma_first_start_bounds(b, i + 1);
    }
}

/// The outcome of one step of the detector: the next state, the bytes left
/// in the buffer, and the frame found or the oversize error.
pub struct FeedOutcome {
    pub state: DetectorState,
    pub buffer: Seq<u8>,
    pub result: Result<Option<Seq<u8>>, (nat, nat)>,
}

/// Ranks the states so that every step the detector takes without
/// returning moves to a lower rank.
pub open spec fn state_rank(s: DetectorState) -> nat {
    match s {
        DetectorState::Error => 3,
        DetectorState::SearchingStart => 2,
        DetectorState::ReadingData { expected_total_len: None } => 1,
        DetectorState::ReadingData { expected_total_len: Some(_) } => 0,
    }
}

/// What the detector does with the bytes `b` (the buffer with the new input
/// appended) in state `s`, until it returns.
pub open spec fn detect(s: DetectorState, b: Seq<u8>) -> FeedOutcome
    decreases state_rank(s),
{
    match s {
        DetectorState::Error => detect(DetectorState::SearchingStart, Seq::empty()),
        DetectorState::SearchingStart => match first_start_from(b, 0) {
            Some(p) => detect(DetectorState::ReadingData { expected_total_len: None }, b.skip(p)),
            None => FeedOutcome {
                state: DetectorState::SearchingStart,
                buffer: if b.len() > 1 {
                    b.skip(b.len() - 1)
                } else {
                    b
                },
                result: Ok(None),
            },
        },
        DetectorState::ReadingData { expected_total_len: None } => if b.len() >= 28 {
            let n = le16(b[24], b[25]);
            if n > 1024 {
                FeedOutcome { state: s, buffer: b, result: Err((n as nat, 1024)) }
            } else {
                detect(DetectorState::ReadingData { expected_total_len: Some((30 + n) as usize) }, b)
            }
        } else {
            FeedOutcome { state: s, buffer: b, result: Ok(None) }
        },
        DetectorState::ReadingData { expected_total_len: Some(e) } => if b.len() >= e {
            FeedOutcome {
                state: DetectorState::SearchingStart,
                buffer: b.skip(e as int),
                result: Ok(Some(b.take(e as int))),
            }
        } else if b.len() > 1054 {
            FeedOutcome { state: DetectorState::Error, buffer: Seq::empty(), result: Err((0, 1054)) }
        } else {
            FeedOutcome { state: s, buffer: b, result: Ok(None) }
        },
    }
}

/// Whether a detector state and buffer can occur: a frame being read has its
/// start marker at the front, and a known frame length is 30 to 1054.
pub open spec fn detector_inv(s: DetectorState, b: Seq<u8>) -> bool {
    match s {
        DetectorState::ReadingData { expected_total_len: Some(e) } => 30 <= e <= 1054,
        _ => true,
    }
}

/// When the detector hands out a frame from a state that can occur, it ends
/// searching for the next start marker with fewer bytes than it was given.
pub proof fn lemma_detect_frame_progress(s: DetectorState, b: Seq<u8>)
    requires
        detector_inv(s, b),
    ensures
        detect(s, b).result is Ok && detect(s, b).result->Ok_0 is Some ==> detect(s, b).buffer.len()
            < b.len() && detect(s, b).state == DetectorState::SearchingStart,
    decreases state_rank(s),
{
    match s {
        DetectorState::Error => {
            lemma_detect_frame_progress(DetectorState::SearchingStart, Seq::empty());
        },
        DetectorState::SearchingStart => {
            if let Some(p) = first_start_from(b, 0) {
                lemma_first_start_bounds(b, 0);
                lemma_detect_frame_progress(
                    DetectorState::ReadingData { expected_total_len: None },
                    b.skip(p),
                );
            }
        },
        DetectorState::ReadingData { expected_total_len: None } => {
            if b.len() >= 28 && le16(b[24], b[25]) <= 1024 {
                let n = le16(b[24], b[25]);
                lemma_detect_frame_progress(
                    DetectorState::ReadingData { expected_total_len: Some((30 + n) as usize) },
                    b,
                );
            }
        },
        DetectorState::ReadingData { expected_total_len: Some(e) } => {},
    }
}

/// Detects GB26875 frames in a byte stream.
pub struct FrameDetector {
    state: DetectorState,
    temp_buffer: Vec<u8>,
}

impl View for FrameDetector {
    type V = FrameDetectorView;

    closed spec fn view(&self) -> FrameDetectorView {
        FrameDetectorView { state: self.state, buffer: self.temp_buffer@ }
    }
}

/// The bytes of `v` from position `start` on.
fn suffix(v: &Vec<u8>, start: usize) -> (r: Vec<u8>)
    requires
        start <= v@.len(),
    ensures
        r@ == v@.skip(start as int),
{
    let r = vstd::slice::slice_to_vec(&v.as_slice()[start..v.len()]);
    proof {
        assert(r@ =~= v@.skip(start as int));
    }
    r
}

impl FrameDetector {
    #[verifier::type_invariant]
    spec fn inv(self) -> bool {
        detector_inv(self.state, self.temp_buffer@)
    }

    /// A detector searching for a start marker, with an empty buffer.
    pub fn new() -> (r: Self)
        ensures
            r@.state == DetectorState::SearchingStart,
            r@.buffer == Seq::<u8>::empty(),
    {
        FrameDetector { state: DetectorState::SearchingStart, temp_buffer: Vec::new() }
    }

    /// Same as `new`; the capacity is a hint for the buffer.
    pub fn with_capacity(capacity: usize) -> (r: Self)
        ensures
            r@.state == DetectorState::SearchingStart,
            r@.buffer == Seq::<u8>::empty(),
    {
        FrameDetector { state: DetectorState::SearchingStart, temp_buffer: Vec::with_capacity(capacity) }
    }

    /// Appends `data` to the buffer and runs the detector: skips to the first
    /// start marker, reads the data unit length from the control unit, and
    /// returns the frame once all its bytes are buffered. A declared length
    /// above 1024 is refused (the buffer is kept); more than 1054 buffered
    /// bytes of one frame are refused and the buffer cleared. In the error
    /// state the buffer, new input included, is cleared first.
    pub fn feed(&mut self, data: &[u8]) -> (r: ParseResult<Option<Vec<u8>>>)
        ensures
            detector_inv(old(self)@.state, old(self)@.buffer),
            ({
                let out = detect(old(self)@.state, old(self)@.buffer + data@);
                &&& final(self)@.state == out.state
                &&& final(self)@.buffer == out.buffer
                &&& match out.result {
                    Ok(None) => r matches Ok(None),
                    Ok(Some(f)) => r matches Ok(Some(v)) && v@ == f,
                    Err((size, max_size)) => r matches Err(
                        ParseError::DataUnitTooLarge { size: s, max_size: m },
                    ) && s == size && m == max_size,
                }
            }),
    {
        proof {
            use_type_invariant(&*self);
        }
        let mut buf = suffix(&self.temp_buffer, 0);
        append_bytes(&mut buf, data);
        proof {
            assert(buf@ =~= old(self)@.buffer + data@);
        }
        self.temp_buffer = buf;
        let ghost b0 = self.temp_buffer@;
        proof {
            assert(detect(old(self)@.state, old(self)@.buffer + data@) == detect(self.state, b0));
        }
        loop
            invariant
                detector_inv(old(self)@.state, old(self)@.buffer),
                detector_inv(self.state, self.temp_buffer@),
                detect(self.state, self.temp_buffer@) == detect(old(self)@.state, old(self)@.buffer
                    + data@),
            decreases state_rank(self.state),
        {
            match self.state {
                DetectorState::Error => {
                    self.reset();
                },
                DetectorState::SearchingStart => {
                    match self.find_start_marker() {
                        Some(p) => {
                            proof {
                                lemma_first_start_bounds(self.temp_buffer@, 0);
                            }
                            self.temp_buffer = suffix(&self.temp_buffer, p);
                            self.state = DetectorState::ReadingData { expected_total_len: None };
                        },
                        None => {
                            let n = self.temp_buffer.len();
                            if n > 1 {
                                self.temp_buffer = suffix(&self.temp_buffer, n - 1);
                            }
                            return Ok(None);
                        },
                    }
                },
                DetectorState::ReadingData { expected_total_len: None } => {
                    if self.temp_buffer.len() >= 28 {
                        let n = u16_from_le(self.temp_buffer[24], self.temp_buffer[25]);
                        if n as usize > MAX_DATA_UNIT_SIZE {
                            return Err(
                                ParseError::DataUnitTooLarge { size: n as usize, max_size: MAX_DATA_UNIT_SIZE },
                            );
                        }
                        self.state = DetectorState::ReadingData {
                            expected_total_len: Some(30 + n as usize),
                        };
                    } else {
                        return Ok(None);
                    }
                },
                DetectorState::ReadingData { expected_total_len: Some(e) } => {
                    if self.temp_buffer.len() >= e {
                        let frame = vstd::slice::slice_to_vec(&self.temp_buffer.as_slice()[0..e]);
                        self.temp_buffer = suffix(&self.temp_buffer, e);
                        self.state = DetectorState::SearchingStart;
                        return Ok(Some(frame));
                    }
                    if self.temp_buffer.len() > MAX_PACKET_SIZE {
                        self.state = DetectorState::Error;
                        self.temp_buffer = Vec::new();
                        return Err(
                            ParseError::DataUnitTooLarge { size: self.temp_buffer.len(), max_size: MAX_PACKET_SIZE },
                        );
                    }
                    return Ok(None);
                },
            }
        }
    }

    /// Position of the first start marker in the buffer.
    fn find_start_marker(&self) -> (r: Option<usize>)
        ensures
            match r {
                Some(p) => first_start_from(self@.buffer, 0) == Some(p as int),
                None => first_start_from(self@.buffer, 0) is None,
            },
    {
        let b = &self.temp_buffer;
        if b.len() < 2 {
            return None;
        }
        let mut i: usize = 0;
        while i < b.len() - 1
            invariant
                b@.len() >= 2,
                i <= b@.len() - 1,
                b@ == self@.buffer,
                first_start_from(b@, 0) == first_start_from(b@, i as int),
            decreases b@.len() - i,
        {
            if b[i] == 0x40 && b[i + 1] == 0x40 {
                assert(start_marker_at(b@, i as int));
                return Some(i);
            }
            i = i + 1;
        }
        None
    }

    /// Back to searching, with an empty buffer.
    pub fn reset(&mut self)
        ensures
            final(self)@.state == DetectorState::SearchingStart,
            final(self)@.buffer == Seq::<u8>::empty(),
    {
        self.state = DetectorState::SearchingStart;
        self.temp_buffer = Vec::new();
    }

    /// Number of buffered bytes.
    pub fn buffer_len(&self) -> (r: usize)
        ensures
            r == self@.buffer.len(),
    {
        self.temp_buffer.len()
    }

    /// Whether bytes are buffered.
    pub fn has_pending_data(&self) -> (r: bool)
        ensures
            r == (self@.buffer.len() > 0),
    {
        self.temp_buffer.len() > 0
    }

    /// Name of the current state.
    pub fn current_state(&self) -> (r: &'static str)
        ensures
            r@ == (match self@.state {
                DetectorState::SearchingStart => "SearchingStart"@,
                DetectorState::ReadingData { .. } => "ReadingData"@,
                DetectorState::Error => "Error"@,
            }),
    {
        match &self.state {
            DetectorState::SearchingStart => "SearchingStart",
            DetectorState::ReadingData { .. } => "ReadingData",
            DetectorState::Error => "Error",
        }
    }
}

impl Default for FrameDetector {
    fn default() -> (r: Self)
        ensures
            r@.state == DetectorState::SearchingStart,
            r@.buffer == Seq::<u8>::empty(),
    {
        Self::new()
    }
}

/// Whether `f` is one whole frame as the detector sees it: the start
/// marker, and as many bytes as the length field of its control unit
/// announces (30 plus a data unit of at most 1024 bytes).
pub open spec fn whole_frame(f: Seq<u8>) -> bool {
    &&& f.len() >= 30
    &&& f[0] == 0x40 && f[1] == 0x40
    &&& le16(f[24], f[25]) <= 1024
    &&& f.len() == 30 + le16(f[24], f[25])
}

/// A searching detector given a whole frame followed by anything hands out
/// that frame and keeps the rest.
pub proof fn law_detector_hands_out_frame(f: Seq<u8>, rest: Seq<u8>)
    requires
        whole_frame(f),
    ensures
        detect(DetectorState::SearchingStart, f + rest) == (FeedOutcome {
            state: DetectorState::SearchingStart,
            buffer: rest,
            result: Ok(Some(f)),
        }),
{
    let b = f + rest;
    let n = le16(f[24], f[25]);
    assert(start_marker_at(b, 0));
    assert(first_start_from(b, 0) == Some(0int));
    assert(b.skip(0) =~= b);
    assert(b[24] == f[24] && b[25] == f[25]);
    assert(b.take(f.len() as int) =~= f);
    assert(b.skip(f.len() as int) =~= rest);
    let e = (30 + n) as usize;
    let r = DetectorState::ReadingData { expected_total_len: None };
    let s = DetectorState::ReadingData { expected_total_len: Some(e) };
    assert(detect(s, b) == (FeedOutcome {
        state: DetectorState::SearchingStart,
        buffer: rest,
        result: Ok(Some(f)),
    }));
    assert(detect(r, b) == detect(s, b));
    assert(detect(DetectorState::SearchingStart, b) == detect(r, b));
}

/// A frame split anywhere into two inputs is handed out by the second feed
/// of a detector that starts out searching with an empty buffer, and not
/// before.
pub proof fn law_detector_split_frame(f: Seq<u8>, k: int)
    requires
        whole_frame(f),
        0 <= k < f.len(),
    ensures
        detect(DetectorState::SearchingStart, f.take(k)).result == Ok::<Option<Seq<u8>>, (nat, nat)>(None),
        detect(
            detect(DetectorState::SearchingStart, f.take(k)).state,
            detect(DetectorState::SearchingStart, f.take(k)).buffer + f.skip(k),
        ).result == Ok::<Option<Seq<u8>>, (nat, nat)>(Some(f)),
{
    let a = f.take(k);
    let n = le16(f[24], f[25]);
    let e = (30 + n) as usize;
    assert(a + f.skip(k) =~= f);
    assert(f.take(e as int) =~= f);
    law_detector_hands_out_frame(f, Seq::empty());
    assert(f + Seq::<u8>::empty() =~= f);
    let r = DetectorState::ReadingData { expected_total_len: None };
    let s = DetectorState::ReadingData { expected_total_len: Some(e) };
    assert(f[24] == f[24]);
    assert(detect(s, f).result == Ok::<Option<Seq<u8>>, (nat, nat)>(Some(f)));
    assert(detect(r, f) == detect(s, f));
    if k < 2 {
        assert(first_start_from(a, 0) is None);
        assert(detect(DetectorState::SearchingStart, a).buffer =~= a);
    } else {
        assert(start_marker_at(a, 0));
        assert(first_start_from(a, 0) == Some(0int));
        assert(a.skip(0) =~= a);
        assert(first_start_from(f, 0) == Some(0int)) by {
            assert(start_marker_at(f, 0));
        }
        assert(f.skip(0) =~= f);
        if k < 28 {
            assert(detect(DetectorState::SearchingStart, a) == detect(
                DetectorState::ReadingData { expected_total_len: None },
                a,
            ));
        } else {
            assert(a[24] == f[24] && a[25] == f[25]);
            assert(detect(DetectorState::SearchingStart, a) == detect(
                DetectorState::ReadingData { expected_total_len: Some(e) },
                a,
            ));
        }
    }
}

} // verus!
