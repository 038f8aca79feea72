//! Streamed sample input: a bounded FIFO fed from outside the graph and
//! drained one sample per tick, and the big-endian word decoder for raw
//! stream bytes.

use vstd::prelude::*;

use crate::Sample;

verus! {

/// A bounded first-in-first-out queue of samples, backed by a lock-free ring
/// buffer. The queue owns both ends: [`SampleFifo::push`] appends at the back
/// and [`SampleFifo::pop`] removes at the front.
#[verifier::external_body]
pub struct SampleFifo {
    producer: ringbuf::Producer<Sample>,
    consumer: ringbuf::Consumer<Sample>,
}

/// The samples queued in a FIFO, oldest first.
pub uninterp spec fn fifo_seq(f: SampleFifo) -> Seq<i64>;

/// The fixed capacity a FIFO was created with.
pub uninterp spec fn fifo_cap(f: SampleFifo) -> nat;

impl SampleFifo {
    /// An empty FIFO of the given capacity.
    ///
    /// Relies on `ringbuf::RingBuffer::new` and `RingBuffer::split`: a ring
    /// buffer of the given capacity, initially empty, split into its
    /// producer and consumer halves.
    #[verifier::external_body]
    pub fn new(capacity: usize) -> (f: Self)
        requires
            capacity >= 1,
        ensures
            fifo_seq(f) == Seq::<i64>::empty(),
            fifo_cap(f) == capacity,
    {
        let (producer, consumer) = ringbuf::RingBuffer::new(capacity).split();
        SampleFifo { producer, consumer }
    }

    /// Append a sample at the back; refused exactly when the queue is full.
    ///
    /// Relies on `ringbuf::Producer::push`: appends the element unless the
    /// buffer already holds `capacity` elements, and returns it on refusal.
    #[verifier::external_body]
    pub fn push(&mut self, v: Sample) -> (ok: bool)
        ensures
            fifo_cap(*final(self)) == fifo_cap(*old(self)),
            ok <==> fifo_seq(*old(self)).len() < fifo_cap(*old(self)),
            ok ==> fifo_seq(*final(self)) == fifo_seq(*old(self)).push(v),
            !ok ==> fifo_seq(*final(self)) == fifo_seq(*old(self)),
    {
        self.producer.push(v).is_ok()
    }

    /// Remove and return the oldest sample, if any.
    ///
    /// Relies on `ringbuf::Consumer::pop`: removes and returns the element
    /// at the front, or `None` when the buffer is empty.
    #[verifier::external_body]
    pub fn pop(&mut self) -> (r: Option<Sample>)
        ensures
            fifo_cap(*final(self)) == fifo_cap(*old(self)),
            fifo_seq(*old(self)).len() == 0 ==> r is None && fifo_seq(*final(self)) == fifo_seq(
                *old(self),
            ),
            fifo_seq(*old(self)).len() > 0 ==> r == Some(fifo_seq(*old(self))[0]) && fifo_seq(
                *final(self),
            ) == fifo_seq(*old(self)).drop_first(),
    {
        self.consumer.pop()
    }

    /// The number of queued samples.
    ///
    /// Relies on `ringbuf::Consumer::len`: the number of elements currently
    /// in the buffer.
    #[verifier::external_body]
    pub fn len(&self) -> (n: usize)
        ensures
            n == fifo_seq(*self).len(),
    {
        self.consumer.len()
    }
}

/// A sample source fed from outside the graph: decoded stream samples queue
/// in a bounded FIFO, the audio side drains one per tick, and an empty queue
/// pads with silence rather than stalling.
pub struct StreamSource {
    pub fifo: SampleFifo,
}

impl StreamSource {
    /// A silent source whose queue holds up to `capacity` samples.
    pub fn new(capacity: usize) -> (s: Self)
        requires
            capacity >= 1,
        ensures
            fifo_seq(s.fifo) == Seq::<i64>::empty(),
            fifo_cap(s.fifo) == capacity,
    {
        StreamSource { fifo: SampleFifo::new(capacity) }
    }

    /// Queue one decoded sample; refused exactly when the queue is full.
    pub fn feed(&mut self, v: Sample) -> (ok: bool)
        ensures
            fifo_cap(final(self).fifo) == fifo_cap(old(self).fifo),
            ok <==> fifo_seq(old(self).fifo).len() < fifo_cap(old(self).fifo),
            ok ==> fifo_seq(final(self).fifo) == fifo_seq(old(self).fifo).push(v),
            !ok ==> fifo_seq(final(self).fifo) == fifo_seq(old(self).fifo),
    {
        self.fifo.push(v)
    }

    /// The next sample: the oldest queued sample, or silence when the queue
    /// has run dry.
    pub fn tick(&mut self) -> (s: Sample)
        ensures
            fifo_cap(final(self).fifo) == fifo_cap(old(self).fifo),
            fifo_seq(old(self).fifo).len() == 0 ==> s == 0 && fifo_seq(final(self).fifo)
                == fifo_seq(old(self).fifo),
            fifo_seq(old(self).fifo).len() > 0 ==> s == fifo_seq(old(self).fifo)[0] && fifo_seq(
                final(self).fifo,
            ) == fifo_seq(old(self).fifo).drop_first(),
    {
        match self.fifo.pop() {
            Some(v) => v,
            None => 0,
        }
    }
}

/// The big-endian 32-bit word starting at byte `4 * i`.
pub open spec fn be_word_at(b: Seq<u8>, i: int) -> int {
    b[4 * i] * 0x1000000 + b[4 * i + 1] * 0x10000 + b[4 * i + 2] * 0x100 + b[4 * i + 3]
}

/// Split raw stream bytes into consecutive big-endian 32-bit words, dropping
/// the trailing bytes of an unaligned chunk.
pub fn decode_be_words(bytes: &Vec<u8>) -> (words: Vec<u32>)
    ensures
        words@.len() == bytes@.len() / 4,
        forall|i: int| 0 <= i < words@.len() ==> words@[i] as int == be_word_at(bytes@, i),
{
    let len = bytes.len();
    let n = len / 4;
    let mut words: Vec<u32> = Vec::new();
    let mut i: usize = 0;
    while i < n
        invariant
            len == bytes@.len(),
            n == len / 4,
            0 <= i <= n,
            4 * n <= len,
            words@.len() == i,
            forall|j: int| 0 <= j < i ==> words@[j] as int == be_word_at(bytes@, j),
        decreases n - i,
    {
        let w: u32 = (bytes[4 * i] as u32) * 0x1000000 + (bytes[4 * i + 1] as u32) * 0x10000 + (
        bytes[4 * i + 2] as u32) * 0x100 + (bytes[4 * i + 3] as u32);
        words.push(w);
        i += 1;
    }
    words
}

} // verus!
