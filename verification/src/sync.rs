//! Single-producer single-consumer ring buffers that carry audio samples from
//! one thread to another.
//!
//! A sample is the bit pattern of a 32-bit float. The two ends of a ring are
//! used from two threads at once, so what one end sees of the other rests on
//! timing. The contracts therefore speak of the ring's stream: every sample
//! that is ever handed over, in order. What one end has sent and what the other
//! has taken are both beginnings of that stream.
use ringbuf::traits::{Consumer, Observer, Producer, Split};
use vstd::prelude::*;

verus! {

/// How many samples a ring between two audio threads holds: 200 ms at 48kHz.
pub const RING_CAPACITY: usize = 9_600;

/// A ring between two audio threads holds a fifth of a second, which is a whole
/// number of frames.
pub proof fn a_ring_holds_a_fifth_of_a_second()
    ensures
        5 * RING_CAPACITY == crate::aec::SAMPLE_RATE,
        RING_CAPACITY == 20 * crate::aec::FRAME_SIZE,
{
}

/// The writing end of a ring of the `ringbuf` crate.
#[verifier::external_body]
pub struct RingWriter {
    inner: ringbuf::HeapProd<u32>,
}

/// The reading end of a ring of the `ringbuf` crate.
#[verifier::external_body]
pub struct RingReader {
    inner: ringbuf::HeapCons<u32>,
}

/// The samples that this writing end is yet to put into its ring, first to
/// last.
pub uninterp spec fn outgoing(w: RingWriter) -> Seq<u32>;

/// How many samples lie in the ring as far as this writing end has last looked:
/// the reading end may have taken some since.
pub uninterp spec fn occupied(w: RingWriter) -> nat;

/// How many samples the ring of this writing end can hold.
pub uninterp spec fn writer_capacity(w: RingWriter) -> nat;

/// The samples that this reading end is yet to take out of its ring, first to
/// last: those that lie in the ring, and those that are still to be written.
pub uninterp spec fn upcoming(r: RingReader) -> Seq<u32>;

/// How many samples lie in the ring as far as this reading end has last looked:
/// the writing end may have put in more since.
pub uninterp spec fn waiting(r: RingReader) -> nat;

/// How many samples the ring of this reading end can hold.
pub uninterp spec fn reader_capacity(r: RingReader) -> nat;

/// `HeapRb::new`, then `split` on it: an empty ring for `capacity` samples.
/// What is written at the one end is what is read at the other, in order.
/// `new` panics on a capacity of zero, and on one whose bytes exceed what an
/// allocation may hold.
#[verifier::external_body]
fn open_ring(capacity: usize) -> (ends: (RingWriter, RingReader))
    requires
        0 < capacity,
        4 * capacity <= isize::MAX,
    ensures
        outgoing(ends.0) == upcoming(ends.1),
        occupied(ends.0) == 0,
        waiting(ends.1) == 0,
        writer_capacity(ends.0) == capacity,
        reader_capacity(ends.1) == capacity,
{
    let (prod, cons) = ringbuf::HeapRb::<u32>::new(capacity).split();
    (RingWriter { inner: prod }, RingReader { inner: cons })
}

/// `Producer::push_slice` on the writing end: it looks how much of the ring is
/// taken, which is no more than at its last look, since only the reading end
/// takes samples out. It appends as many samples as fit, from the front of
/// `data`, and returns how many.
#[verifier::external_body]
fn write_slice(w: &mut RingWriter, data: &[u32]) -> (n: usize)
    ensures
        n <= data@.len(),
        n <= occupied(*final(w)) <= writer_capacity(*old(w)),
        occupied(*final(w)) - n <= occupied(*old(w)),
        n < data@.len() ==> occupied(*final(w)) == writer_capacity(*old(w)),
        outgoing(*old(w)) == data@.take(n as int) + outgoing(*final(w)),
        writer_capacity(*final(w)) == writer_capacity(*old(w)),
{
    w.inner.push_slice(data)
}

/// `Observer::occupied_len` on the writing end: it looks how many samples lie
/// in the ring, which is no more than at its last look.
#[verifier::external_body]
fn look_written(w: &mut RingWriter) -> (n: usize)
    ensures
        n == occupied(*final(w)),
        n <= occupied(*old(w)),
        outgoing(*final(w)) == outgoing(*old(w)),
        writer_capacity(*final(w)) == writer_capacity(*old(w)),
{
    w.inner.occupied_len()
}

/// `Consumer::pop_slice` on the reading end: it looks how many samples lie in
/// the ring, which is no fewer than at its last look, since only it takes
/// samples out. It moves as many as fit from the ring to the front of `dst`,
/// oldest first, leaves the rest of `dst` as it was, and returns how many. How
/// many the writing end has put in by then rests on the other thread, and is
/// left unsaid.
#[verifier::external_body]
fn read_slice(r: &mut RingReader, dst: &mut [u32]) -> (n: usize)
    ensures
        n <= old(dst)@.len(),
        n <= upcoming(*old(r)).len(),
        waiting(*old(r)) <= n + waiting(*final(r)) <= reader_capacity(*old(r)),
        n < old(dst)@.len() ==> waiting(*final(r)) == 0,
        final(dst)@ == upcoming(*old(r)).take(n as int) + old(dst)@.skip(n as int),
        upcoming(*final(r)) == upcoming(*old(r)).skip(n as int),
        reader_capacity(*final(r)) == reader_capacity(*old(r)),
{
    r.inner.pop_slice(dst)
}

/// `Observer::occupied_len` on the reading end: it looks how many samples lie
/// in the ring, which is no fewer than at its last look.
#[verifier::external_body]
fn look_waiting(r: &mut RingReader) -> (n: usize)
    ensures
        n == waiting(*final(r)),
        waiting(*old(r)) <= n <= reader_capacity(*old(r)),
        upcoming(*final(r)) == upcoming(*old(r)),
        reader_capacity(*final(r)) == reader_capacity(*old(r)),
{
    r.inner.occupied_len()
}

/// What a producer knows: the ring's stream, how much of it was sent, and how
/// much of the ring was taken when it last looked.
pub struct ProducerView {
    pub stream: Seq<u32>,
    pub sent: nat,
    pub occupied: nat,
    pub capacity: nat,
}

/// What a consumer knows: the ring's stream, how much of it was taken, and how
/// many samples were waiting when it last looked.
pub struct ConsumerView {
    pub stream: Seq<u32>,
    pub taken: nat,
    pub waiting: nat,
    pub capacity: nat,
}

/// Single-producer single-consumer ring buffer for audio samples.
pub struct AudioRingBuf {
    prod: RingWriter,
    cons: RingReader,
}

impl AudioRingBuf {
    /// How many samples the ring can hold.
    pub closed spec fn capacity(self) -> nat {
        writer_capacity(self.prod)
    }

    /// Both ends belong to one ring, and neither has been used.
    #[verifier::type_invariant]
    spec fn unused(self) -> bool {
        &&& outgoing(self.prod) == upcoming(self.cons)
        &&& occupied(self.prod) == 0
        &&& waiting(self.cons) == 0
        &&& reader_capacity(self.cons) == writer_capacity(self.prod)
    }

    /// Create a new ring buffer with the given capacity in samples.
    pub fn new(capacity: usize) -> (ring: Self)
        requires
            0 < capacity,
            4 * capacity <= isize::MAX,
        ensures
            ring.capacity() == capacity,
    {
        let (prod, cons) = open_ring(capacity);
        AudioRingBuf { prod, cons }
    }

    /// Split into producer and consumer halves for use in separate threads.
    pub fn split(self) -> (ends: (AudioProducer, AudioConsumer))
        ensures
            ends.0@.stream == ends.1@.stream,
            ends.0@.sent == 0,
            ends.0@.occupied == 0,
            ends.0@.capacity == self.capacity(),
            ends.1@.taken == 0,
            ends.1@.waiting == 0,
            ends.1@.capacity == self.capacity(),
    {
        proof {
            use_type_invariant(&self);
        }
        let prod = AudioProducer { inner: self.prod, sent: Ghost(Seq::empty()) };
        let cons = AudioConsumer { inner: self.cons, taken: Ghost(Seq::empty()) };
        assert(prod@.stream =~= cons@.stream);
        (prod, cons)
    }
}

/// Producer half: push audio samples from a capture thread.
pub struct AudioProducer {
    inner: RingWriter,
    sent: Ghost<Seq<u32>>,
}

impl View for AudioProducer {
    type V = ProducerView;

    closed spec fn view(&self) -> ProducerView {
        ProducerView {
            stream: self.sent@ + outgoing(self.inner),
            sent: self.sent@.len(),
            occupied: occupied(self.inner),
            capacity: writer_capacity(self.inner),
        }
    }
}

/// How a push of `data` that accepted `n` samples moves a producer on: the
/// samples that it accepted are the next ones of the stream, from the front of
/// `data`, and it refuses some only where the ring is then full.
pub open spec fn pushed(before: ProducerView, data: Seq<u32>, n: nat, after: ProducerView) -> bool {
    &&& n <= data.len()
    &&& after.stream == before.stream
    &&& after.sent == before.sent + n
    &&& after.sent <= after.stream.len()
    &&& after.stream.subrange(before.sent as int, after.sent as int) == data.take(n as int)
    &&& after.capacity == before.capacity
    &&& n <= after.occupied <= after.capacity
    &&& after.occupied <= before.occupied + n
    &&& n < data.len() ==> after.occupied == after.capacity
}

impl AudioProducer {
    /// Push a slice of samples. Returns number of samples actually written.
    pub fn push(&mut self, data: &[u32]) -> (n: usize)
        ensures
            pushed(old(self)@, data@, n as nat, final(self)@),
    {
        let n: usize = write_slice(&mut self.inner, data);
        self.sent = Ghost(self.sent@ + data@.take(n as int));
        assert(self@.stream =~= old(self)@.stream);
        assert(self@.stream.subrange(old(self)@.sent as int, self@.sent as int) =~= data@.take(
            n as int,
        ));
        n
    }

    /// Number of samples waiting to be consumed.
    pub fn available(&mut self) -> (n: usize)
        ensures
            n <= old(self)@.occupied,
            final(self)@ == (ProducerView { occupied: n as nat, ..old(self)@ }),
    {
        let n: usize = look_written(&mut self.inner);
        n
    }
}

/// Consumer half: pull audio samples from a processing thread.
pub struct AudioConsumer {
    inner: RingReader,
    taken: Ghost<Seq<u32>>,
}

impl View for AudioConsumer {
    type V = ConsumerView;

    closed spec fn view(&self) -> ConsumerView {
        ConsumerView {
            stream: self.taken@ + upcoming(self.inner),
            taken: self.taken@.len(),
            waiting: waiting(self.inner),
            capacity: reader_capacity(self.inner),
        }
    }
}

/// How a pop into `before_dst` that took `n` samples moves a consumer on: the
/// next `n` samples of the stream stand at the front of the destination, whose
/// rest is left as it was; samples that were waiting are taken as far as they
/// fit.
pub open spec fn popped(
    before: ConsumerView,
    before_dst: Seq<u32>,
    n: nat,
    after: ConsumerView,
    after_dst: Seq<u32>,
) -> bool {
    &&& n <= before_dst.len()
    &&& after.stream == before.stream
    &&& after.taken == before.taken + n
    &&& after.taken <= after.stream.len()
    &&& after_dst == after.stream.subrange(before.taken as int, after.taken as int)
        + before_dst.skip(n as int)
    &&& after.capacity == before.capacity
    &&& before.waiting <= n + after.waiting <= after.capacity
    &&& n < before_dst.len() ==> after.waiting == 0
}

impl AudioConsumer {
    /// Pop up to `dst.len()` samples into dst. Returns number of samples read.
    pub fn pop(&mut self, dst: &mut [u32]) -> (n: usize)
        ensures
            popped(old(self)@, old(dst)@, n as nat, final(self)@, final(dst)@),
    {
        let ghost before = upcoming(self.inner);
        let n: usize = read_slice(&mut self.inner, dst);
        self.taken = Ghost(self.taken@ + before.take(n as int));
        assert(self@.stream =~= old(self)@.stream);
        assert(self@.stream.subrange(old(self)@.taken as int, self@.taken as int) =~= before.take(
            n as int,
        ));
        n
    }

    /// Number of samples available for reading.
    pub fn available(&mut self) -> (n: usize)
        ensures
            old(self)@.waiting <= n <= old(self)@.capacity,
            final(self)@ == (ConsumerView { waiting: n as nat, ..old(self)@ }),
    {
        let n: usize = look_waiting(&mut self.inner);
        n
    }
}

/// The samples that a producer has sent so far, first to last.
pub open spec fn sent_samples(p: ProducerView) -> Seq<u32> {
    p.stream.take(p.sent as int)
}

/// The samples that a consumer has taken so far, first to last.
pub open spec fn taken_samples(c: ConsumerView) -> Seq<u32> {
    c.stream.take(c.taken as int)
}

/// First in, first out, with no sample lost, doubled or out of order: what the
/// one end of a ring has taken is a beginning of what the other has sent, or,
/// where what was sent is counted first, the other way round. Each end speaks of
/// its own place in the stream alone.
pub proof fn samples_arrive_in_order(p: ProducerView, c: ConsumerView)
    requires
        p.stream == c.stream,
        p.sent <= p.stream.len(),
        c.taken <= c.stream.len(),
    ensures
        c.taken <= p.sent ==> taken_samples(c) == sent_samples(p).take(c.taken as int),
        p.sent <= c.taken ==> sent_samples(p) == taken_samples(c).take(p.sent as int),
{
    if c.taken <= p.sent {
        assert(taken_samples(c) =~= sent_samples(p).take(c.taken as int));
    } else {
        assert(sent_samples(p) =~= taken_samples(c).take(p.sent as int));
    }
}

/// A push appends the samples that it accepts to those that were sent.
pub proof fn a_push_appends(before: ProducerView, data: Seq<u32>, n: nat, after: ProducerView)
    requires
        pushed(before, data, n, after),
    ensures
        sent_samples(after) == sent_samples(before) + data.take(n as int),
{
    assert(sent_samples(after) =~= sent_samples(before) + after.stream.subrange(
        before.sent as int,
        after.sent as int,
    ));
}

/// A pop appends the samples that it takes to those that were taken, and leaves
/// the rest of its destination alone. It takes all that waits, as far as there
/// is room: at least what was waiting at the last look, and just that where
/// nothing has come since; the number that waits then drops by what was taken.
pub proof fn a_pop_takes_what_waits(
    before: ConsumerView,
    before_dst: Seq<u32>,
    n: nat,
    after: ConsumerView,
    after_dst: Seq<u32>,
)
    requires
        popped(before, before_dst, n, after, after_dst),
    ensures
        taken_samples(after) == taken_samples(before) + after_dst.take(n as int),
        after_dst.len() == before_dst.len(),
        after_dst.skip(n as int) == before_dst.skip(n as int),
        n >= before_dst.len() || n >= before.waiting,
        n + after.waiting == before.waiting ==> n == if before_dst.len() < before.waiting {
            before_dst.len()
        } else {
            before.waiting
        },
{
    let got = after.stream.subrange(before.taken as int, after.taken as int);
    assert(after_dst.take(n as int) =~= got);
    assert(after_dst.skip(n as int) =~= before_dst.skip(n as int));
    assert(taken_samples(after) =~= taken_samples(before) + got);
}

/// A push accepts as many samples as it finds room for: all of them, or as many
/// as fill the ring, which is no fewer than there was room for at the last look.
/// The ring's stream and size stay what they are.
pub proof fn a_push_fills_the_room(
    before: ProducerView,
    data: Seq<u32>,
    n: nat,
    after: ProducerView,
)
    requires
        pushed(before, data, n, after),
    ensures
        n == data.len() || after.occupied == before.capacity,
        n == data.len() || n + before.occupied >= before.capacity,
        n <= data.len(),
        after.stream == before.stream,
        after.capacity == before.capacity,
        after.occupied <= before.capacity,
        after.occupied <= before.occupied + n,
        after.sent == before.sent + n,
        forall|i: int| 0 <= i < n ==> before.stream[before.sent + i] == #[trigger] data[i],
{
    assert forall|i: int| 0 <= i < n implies before.stream[before.sent + i] == #[trigger] data[i] by {
        assert(after.stream.subrange(before.sent as int, after.sent as int)[i] == data.take(
            n as int,
        )[i]);
    }
}

/// A pop hands out the next samples of the ring's stream, each in its place, and
/// moves on by as many; the stream and the ring's size stay what they are.
pub proof fn a_pop_hands_out_the_next_samples(
    before: ConsumerView,
    before_dst: Seq<u32>,
    n: nat,
    after: ConsumerView,
    after_dst: Seq<u32>,
)
    requires
        popped(before, before_dst, n, after, after_dst),
    ensures
        after.stream == before.stream,
        after.capacity == before.capacity,
        after.taken == before.taken + n,
        n <= before_dst.len(),
        after_dst.len() == before_dst.len(),
        forall|i: int| 0 <= i < n ==> #[trigger] after_dst[i] == before.stream[before.taken + i],
        forall|i: int| n <= i < before_dst.len() ==> #[trigger] after_dst[i] == before_dst[i],
        n == before_dst.len() || after.waiting == 0,
        before.waiting <= n + after.waiting,
{
}

} // verus!
