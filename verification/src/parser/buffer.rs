//! A byte buffer for stream input with a size limit, a queue of complete
//! frames, and usage statistics.
use std::collections::VecDeque;
use vstd::prelude::*;

verus! {

/// Usage statistics of a stream buffer.
#[derive(Debug, Clone, Copy, PartialEq, Eq, Structural)]
pub struct BufferStats {
    /// bytes accepted
    pub bytes_received: u64,
    /// frames queued
    pub frames_processed: u64,
    /// inputs refused for lack of room
    pub buffer_overflows: u64,
    /// bytes buffered
    pub current_buffer_size: usize,
    /// most bytes buffered at once
    pub peak_buffer_size: usize,
}

/// All statistics zero.
pub open spec fn zero_buffer_stats() -> BufferStats {
    BufferStats {
        bytes_received: 0,
        frames_processed: 0,
        buffer_overflows: 0,
        current_buffer_size: 0,
        peak_buffer_size: 0,
    }
}

impl Default for BufferStats {
    fn default() -> (r: Self)
        ensures
            r == zero_buffer_stats(),
    {
        BufferStats {
            bytes_received: 0,
            frames_processed: 0,
            buffer_overflows: 0,
            current_buffer_size: 0,
            peak_buffer_size: 0,
        }
    }
}

/// Error of a stream buffer.
#[derive(Debug, Clone, Copy, PartialEq, Eq, Structural)]
pub enum BufferError {
    /// the input does not fit
    BufferOverflow {
        /// bytes buffered
        current_size: usize,
        /// bytes offered
        incoming_size: usize,
        /// the limit
        max_size: usize,
    },
    /// fewer bytes than needed
    InsufficientData {
        /// bytes needed
        required: usize,
        /// bytes there
        available: usize,
    },
}

/// What a stream buffer holds: its bytes, its queued frames, its size limit
/// and its statistics.
pub struct StreamBufferView {
    pub bytes: Seq<u8>,
    pub frames: Seq<Seq<u8>>,
    pub max_buffer_size: usize,
    pub stats: BufferStats,
}

/// Number of elements a vector can hold without reallocating.
///
/// Calls `Vec::capacity`, which the standard library documents to be at
/// least the vector's length; the contract states that. The exact value is
/// chosen by the allocator and is not described.
#[verifier::external_body]
fn vec_capacity(v: &Vec<u8>) -> (r: usize)
    ensures
        r >= v@.len(),
{
    v.capacity()
}

/// A buffer for stream input.
pub struct StreamBuffer {
    buffer: Vec<u8>,
    frame_queue: VecDeque<Vec<u8>>,
    max_buffer_size: usize,
    stats: BufferStats,
}

impl View for StreamBuffer {
    type V = StreamBufferView;

    closed spec fn view(&self) -> StreamBufferView {
        StreamBufferView {
            bytes: self.buffer@,
            frames: self.frame_queue@.map_values(|f: Vec<u8>| f@),
            max_buffer_size: self.max_buffer_size,
            stats: self.stats,
        }
    }
}

/// The bytes of `v` from position `start` on.
fn tail_of(v: &Vec<u8>, start: usize) -> (r: Vec<u8>)
    requires
        start <= v@.len(),
    ensures
        r@ == v@.skip(start as int),
{
    let r = vstd::slice::slice_to_vec(&v.as_slice()[start..v.len()]);
    proof {
        assert(r@ =~= v@.skip(start as int));
    }
    r
}

impl StreamBuffer {
    /// An empty buffer with an 8 KiB size hint and a 32 KiB limit.
    pub fn new() -> (r: Self)
        ensures
            r@.bytes == Seq::<u8>::empty(),
            r@.frames == Seq::<Seq<u8>>::empty(),
            r@.max_buffer_size == 32768,
            r@.stats == zero_buffer_stats(),
    {
        Self::with_capacity(8192)
    }

    /// An empty buffer with the given size hint and a limit of four times
    /// that.
    pub fn with_capacity(capacity: usize) -> (r: Self)
        requires
            capacity <= usize::MAX / 4,
        ensures
            r@.bytes == Seq::<u8>::empty(),
            r@.frames == Seq::<Seq<u8>>::empty(),
            r@.max_buffer_size == 4 * capacity,
            r@.stats == zero_buffer_stats(),
    {
        let q: VecDeque<Vec<u8>> = VecDeque::new();
        let r = StreamBuffer {
            buffer: Vec::with_capacity(capacity),
            frame_queue: q,
            max_buffer_size: capacity * 4,
            stats: BufferStats::default(),
        };
        proof {
            assert(r@.frames =~= Seq::<Seq<u8>>::empty());
        }
        r
    }

    /// Sets the size limit.
    pub fn set_max_buffer_size(&mut self, max_size: usize)
        ensures
            final(self)@ == (StreamBufferView { max_buffer_size: max_size, ..old(self)@ }),
    {
        self.max_buffer_size = max_size;
    }

    /// Appends `data` when the buffer then stays within its limit; otherwise
    /// counts an overflow and refuses the data.
    pub fn push_data(&mut self, data: &[u8]) -> (r: Result<(), BufferError>)
        requires
            old(self)@.stats.buffer_overflows < u64::MAX,
            old(self)@.stats.bytes_received + data@.len() <= u64::MAX,
        ensures
            r is Ok <==> old(self)@.bytes.len() + data@.len() <= old(self)@.max_buffer_size,
            r is Ok ==> final(self)@ == (StreamBufferView {
                bytes: old(self)@.bytes + data@,
                stats: BufferStats {
                    bytes_received: (old(self)@.stats.bytes_received + data@.len()) as u64,
                    current_buffer_size: (old(self)@.bytes.len() + data@.len()) as usize,
                    peak_buffer_size: if old(self)@.bytes.len() + data@.len()
                        > old(self)@.stats.peak_buffer_size {
                        (old(self)@.bytes.len() + data@.len()) as usize
                    } else {
                        old(self)@.stats.peak_buffer_size
                    },
                    ..old(self)@.stats
                },
                ..old(self)@
            }),
            r matches Err(e) ==> e == (BufferError::BufferOverflow {
                current_size: old(self)@.bytes.len() as usize,
                incoming_size: data@.len() as usize,
                max_size: old(self)@.max_buffer_size,
            }) && final(self)@ == (StreamBufferView {
                stats: BufferStats {
                    buffer_overflows: (old(self)@.stats.buffer_overflows + 1) as u64,
                    ..old(self)@.stats
                },
                ..old(self)@
            }),
    {
        let len = self.buffer.len();
        if len > self.max_buffer_size || data.len() > self.max_buffer_size - len {
            self.stats.buffer_overflows = self.stats.buffer_overflows + 1;
            return Err(
                BufferError::BufferOverflow {
                    current_size: len,
                    incoming_size: data.len(),
                    max_size: self.max_buffer_size,
                },
            );
        }
        crate::wire::append_bytes(&mut self.buffer, data);
        self.stats.bytes_received = self.stats.bytes_received + data.len() as u64;
        self.stats.current_buffer_size = self.buffer.len();
        if self.buffer.len() > self.stats.peak_buffer_size {
            self.stats.peak_buffer_size = self.buffer.len();
        }
        Ok(())
    }

    /// Takes the first `length` bytes out of the buffer, when there are that
    /// many.
    pub fn extract(&mut self, length: usize) -> (r: Option<Vec<u8>>)
        ensures
            r is Some <==> old(self)@.bytes.len() >= length,
            r matches Some(v) ==> v@ == old(self)@.bytes.take(length as int) && final(self)@ == (
            StreamBufferView {
                bytes: old(self)@.bytes.skip(length as int),
                stats: BufferStats {
                    current_buffer_size: (old(self)@.bytes.len() - length) as usize,
                    ..old(self)@.stats
                },
                ..old(self)@
            }),
            r is None ==> final(self)@ == old(self)@,
    {
        if self.buffer.len() >= length {
            let extracted = vstd::slice::slice_to_vec(&self.buffer.as_slice()[0..length]);
            self.buffer = tail_of(&self.buffer, length);
            self.stats.current_buffer_size = self.buffer.len();
            proof {
                assert(extracted@ =~= old(self)@.bytes.take(length as int));
            }
            Some(extracted)
        } else {
            None
        }
    }

    /// The first `length` bytes, when there are that many, left in place.
    pub fn peek(&self, length: usize) -> (r: Option<&[u8]>)
        ensures
            r is Some <==> self@.bytes.len() >= length,
            r matches Some(s) ==> s@ == self@.bytes.take(length as int),
    {
        if self.buffer.len() >= length {
            let s = &self.buffer.as_slice()[0..length];
            proof {
                assert(s@ =~= self@.bytes.take(length as int));
            }
            Some(s)
        } else {
            None
        }
    }

    /// All buffered bytes, left in place.
    pub fn peek_all(&self) -> (r: &[u8])
        ensures
            r@ == self@.bytes,
    {
        self.buffer.as_slice()
    }

    /// Throws away up to `count` bytes from the front; says how many.
    pub fn discard(&mut self, count: usize) -> (r: usize)
        ensures
            r == (if count < old(self)@.bytes.len() {
                count as int
            } else {
                old(self)@.bytes.len() as int
            }),
            r > 0 ==> final(self)@ == (StreamBufferView {
                bytes: old(self)@.bytes.skip(r as int),
                stats: BufferStats {
                    current_buffer_size: (old(self)@.bytes.len() - r) as usize,
                    ..old(self)@.stats
                },
                ..old(self)@
            }),
            r == 0 ==> final(self)@ == old(self)@,
    {
        let actual = if count < self.buffer.len() {
            count
        } else {
            self.buffer.len()
        };
        if actual > 0 {
            self.buffer = tail_of(&self.buffer, actual);
            self.stats.current_buffer_size = self.buffer.len();
        }
        actual
    }

    /// Moves the bytes into a smaller allocation when the buffer uses less
    /// than a quarter of a capacity above 1024; the contents stay the same.
    pub fn compact(&mut self)
        ensures
            final(self)@ == old(self)@,
    {
        let cap = vec_capacity(&self.buffer);
        if cap > 1024 && self.buffer.len() < cap / 4 {
            let mut fresh: Vec<u8> = Vec::with_capacity(self.buffer.len() * 2);
            crate::wire::append_bytes(&mut fresh, self.buffer.as_slice());
            self.buffer = fresh;
        }
    }

    /// Empties the buffer and the frame queue.
    pub fn clear(&mut self)
        ensures
            final(self)@ == (StreamBufferView {
                bytes: Seq::empty(),
                frames: Seq::empty(),
                stats: BufferStats { current_buffer_size: 0, ..old(self)@.stats },
                ..old(self)@
            }),
    {
        self.buffer = Vec::new();
        self.frame_queue = VecDeque::new();
        self.stats.current_buffer_size = 0;
        proof {
            assert(self@.frames =~= Seq::<Seq<u8>>::empty());
        }
    }

    /// Number of buffered bytes.
    pub fn len(&self) -> (r: usize)
        ensures
            r == self@.bytes.len(),
    {
        self.buffer.len()
    }

    /// Whether no bytes are buffered.
    pub fn is_empty(&self) -> (r: bool)
        ensures
            r == (self@.bytes.len() == 0),
    {
        self.buffer.len() == 0
    }

    /// Number of bytes the buffer can hold without reallocating: at least
    /// the number buffered.
    pub fn capacity(&self) -> (r: usize)
        ensures
            r >= self@.bytes.len(),
    {
        vec_capacity(&self.buffer)
    }

    /// Room left before the limit, zero when the limit is reached.
    pub fn remaining_capacity(&self) -> (r: usize)
        ensures
            r == (if self@.max_buffer_size >= self@.bytes.len() {
                self@.max_buffer_size - self@.bytes.len()
            } else {
                0
            }),
    {
        self.max_buffer_size.saturating_sub(self.buffer.len())
    }

    /// The statistics.
    pub fn stats(&self) -> (r: &BufferStats)
        ensures
            *r == self@.stats,
    {
        &self.stats
    }

    /// Zero statistics, with the current and peak sizes set to the bytes
    /// buffered.
    pub fn reset_stats(&mut self)
        ensures
            final(self)@ == (StreamBufferView {
                stats: BufferStats {
                    current_buffer_size: old(self)@.bytes.len() as usize,
                    peak_buffer_size: old(self)@.bytes.len() as usize,
                    ..zero_buffer_stats()
                },
                ..old(self)@
            }),
    {
        let len = self.buffer.len();
        self.stats = BufferStats {
            bytes_received: 0,
            frames_processed: 0,
            buffer_overflows: 0,
            current_buffer_size: len,
            peak_buffer_size: len,
        };
    }

    /// Puts a frame at the back of the queue and counts it.
    pub fn enqueue_frame(&mut self, frame: Vec<u8>)
        requires
            old(self)@.stats.frames_processed < u64::MAX,
        ensures
            final(self)@ == (StreamBufferView {
                frames: old(self)@.frames.push(frame@),
                stats: BufferStats {
                    frames_processed: (old(self)@.stats.frames_processed + 1) as u64,
                    ..old(self)@.stats
                },
                ..old(self)@
            }),
    {
        let ghost f = frame@;
        self.frame_queue.push_back(frame);
        self.stats.frames_processed = self.stats.frames_processed + 1;
        proof {
            assert(self@.frames =~= old(self)@.frames.push(f));
        }
    }

    /// Takes the frame at the front of the queue.
    pub fn dequeue_frame(&mut self) -> (r: Option<Vec<u8>>)
        ensures
            r is None <==> old(self)@.frames.len() == 0,
            r matches Some(f) ==> f@ == old(self)@.frames[0] && final(self)@ == (
            StreamBufferView { frames: old(self)@.frames.drop_first(), ..old(self)@ }),
            r is None ==> final(self)@ == old(self)@,
    {
        let r = self.frame_queue.pop_front();
        proof {
            if r is Some {
                assert(self@.frames =~= old(self)@.frames.drop_first());
            }
        }
        r
    }

    /// Number of queued frames.
    pub fn frame_queue_len(&self) -> (r: usize)
        ensures
            r == self@.frames.len(),
    {
        self.frame_queue.len()
    }

    /// Whether no frames are queued.
    pub fn frame_queue_is_empty(&self) -> (r: bool)
        ensures
            r == (self@.frames.len() == 0),
    {
        self.frame_queue.len() == 0
    }
}

impl Default for StreamBuffer {
    fn default() -> (r: Self)
        ensures
            r@.bytes == Seq::<u8>::empty(),
            r@.frames == Seq::<Seq<u8>>::empty(),
            r@.max_buffer_size == 32768,
            r@.stats == zero_buffer_stats(),
    {
        Self::new()
    }
}

/// Frames leave the queue in the order they entered: with `f` put at the
/// back of the queued frames `q`, the front is `q`'s front (or `f` when `q`
/// was empty), and once the front is taken what remains is the rest of `q`
/// followed by `f`.
pub proof fn law_frame_queue_fifo(q: Seq<Seq<u8>>, f: Seq<u8>)
    ensures
        q.len() == 0 ==> q.push(f)[0] == f && q.push(f).drop_first().len() == 0,
        q.len() > 0 ==> q.push(f)[0] == q[0] && q.push(f).drop_first() == q.drop_first().push(f),
{
    if q.len() > 0 {
        assert(q.push(f).drop_first() =~= q.drop_first().push(f));
    }
}

} // verus!
