//! The bounded sample pipe between the capture side and the render side.
//!
//! Samples travel through the pipe as the bit patterns of single-precision
//! values, so silence is the pattern of positive zero. The queue itself is a
//! `ringbuf` heap ring buffer; what it holds is modelled as a sequence with
//! the eldest sample first.

use ringbuf::traits::{Consumer, Observer, Producer, Split};
use ringbuf::{HeapCons, HeapProd, HeapRb};
use vstd::prelude::*;

verus! {

/// The sample that stands in for missing audio: the bit pattern of positive zero.
pub const SILENCE: u32 = 0;

/// What a pipe holds: its samples, eldest first, and the capacity it was made with.
#[verifier::ext_equal]
pub struct PipeView {
    /// The samples waiting, eldest first.
    pub samples: Seq<u32>,
    /// The number of slots.
    pub capacity: nat,
}

/// `count` samples of silence.
pub open spec fn silence(count: nat) -> Seq<u32> {
    Seq::new(count, |i: int| SILENCE)
}

/// Whether a pipe with `latency` samples of delay can be allocated: it has
/// twice that many slots of four bytes each, at least one and no more than
/// an allocation may span.
pub open spec fn pipe_fits(latency: nat) -> bool {
    0 < latency && latency * 8 <= isize::MAX
}

impl PipeView {
    /// The occupied length never exceeds the capacity, and the capacity is not zero.
    pub open spec fn wf(self) -> bool {
        0 < self.capacity && self.samples.len() <= self.capacity
    }

    /// A fresh pipe for `latency` samples of delay: twice that capacity,
    /// half of it filled with silence.
    pub open spec fn prefilled(latency: nat) -> PipeView {
        PipeView { samples: silence(latency), capacity: 2 * latency }
    }

    /// No sample is waiting.
    pub open spec fn is_empty(self) -> bool {
        self.samples.len() == 0
    }

    /// Every slot is taken.
    pub open spec fn is_full(self) -> bool {
        self.samples.len() >= self.capacity
    }

    /// The number of samples that can still be pushed.
    pub open spec fn vacant(self) -> nat {
        if self.is_full() {
            0
        } else {
            (self.capacity - self.samples.len()) as nat
        }
    }

    /// The pipe after an attempt to push `sample`: a full pipe drops it.
    pub open spec fn push(self, sample: u32) -> PipeView {
        if self.is_full() {
            self
        } else {
            PipeView { samples: self.samples.push(sample), capacity: self.capacity }
        }
    }

    /// What the next pop hands out: the eldest sample, or silence on underflow.
    pub open spec fn front(self) -> u32 {
        if self.is_empty() {
            SILENCE
        } else {
            self.samples[0]
        }
    }

    /// The pipe after a pop: an empty pipe stays as it is.
    pub open spec fn pop(self) -> PipeView {
        if self.is_empty() {
            self
        } else {
            PipeView { samples: self.samples.drop_first(), capacity: self.capacity }
        }
    }

    /// How many samples of a block of `count` the pipe takes before it is full.
    pub open spec fn accepts(self, count: nat) -> nat {
        if count <= self.vacant() {
            count
        } else {
            self.vacant()
        }
    }

    /// How many of `count` pops find a sample.
    pub open spec fn yields(self, count: nat) -> nat {
        if count <= self.samples.len() {
            count
        } else {
            self.samples.len()
        }
    }

    /// The pipe after each sample of `block` was pushed in turn: the part
    /// that fits is appended, the rest is dropped.
    pub open spec fn push_block(self, block: Seq<u32>) -> PipeView {
        PipeView {
            samples: self.samples + block.take(self.accepts(block.len()) as int),
            capacity: self.capacity,
        }
    }

    /// What `count` pops in a row hand out: the samples there are, eldest
    /// first, then silence.
    pub open spec fn played(self, count: nat) -> Seq<u32> {
        self.samples.take(self.yields(count) as int) + silence((count - self.yields(count)) as nat)
    }

    /// The pipe after `count` pops in a row.
    pub open spec fn pop_block(self, count: nat) -> PipeView {
        PipeView { samples: self.samples.skip(self.yields(count) as int), capacity: self.capacity }
    }

    /// The course of a one-to-one exchange: for each sample of `input` in
    /// turn, the capture side pushes it and the render side pops once.
    pub open spec fn drive(self, input: Seq<u32>) -> Exchange
        decreases input.len(),
    {
        if input.len() == 0 {
            Exchange { pipe: self, played: Seq::empty(), dropped: 0, underruns: 0 }
        } else {
            let before = self.drive(input.drop_last());
            let pushed = before.pipe.push(input.last());
            Exchange {
                pipe: pushed.pop(),
                played: before.played.push(pushed.front()),
                dropped: before.dropped + if before.pipe.is_full() { 1nat } else { 0nat },
                underruns: before.underruns + if pushed.is_empty() { 1nat } else { 0nat },
            }
        }
    }
}

/// Where a one-to-one exchange has led.
pub struct Exchange {
    /// The pipe after the last pop.
    pub pipe: PipeView,
    /// What the pops handed out, in order.
    pub played: Seq<u32>,
    /// Pushes that found the pipe full.
    pub dropped: nat,
    /// Pops that found the pipe empty.
    pub underruns: nat,
}

/// A fresh pipe is exactly half full: as many samples of silence wait in it
/// as slots are free, so either side may get that far ahead of the other.
pub proof fn lemma_prefilled_is_half_full(latency: nat)
    requires
        0 < latency,
    ensures
        PipeView::prefilled(latency).wf(),
        PipeView::prefilled(latency).samples.len() == latency,
        PipeView::prefilled(latency).vacant() == latency,
{
}

/// Pushing a block is pushing its samples one by one: each sample goes in
/// if the pipe still has room after those before it, and is dropped if not.
pub proof fn lemma_push_block_by_sample(pipe: PipeView, block: Seq<u32>, sample: u32)
    requires
        pipe.wf(),
    ensures
        pipe.push_block(Seq::empty()) == pipe,
        pipe.push_block(block.push(sample)) == pipe.push_block(block).push(sample),
        pipe.accepts(block.len() + 1) == pipe.accepts(block.len()) + (if pipe.push_block(
            block,
        ).is_full() {
            0nat
        } else {
            1nat
        }),
        pipe.push_block(block).wf(),
{
}

/// Popping a block is popping one by one: each pop hands out the eldest
/// sample left by those before it, or silence once the pipe has run dry.
pub proof fn lemma_pop_block_by_sample(pipe: PipeView, count: nat)
    requires
        pipe.wf(),
    ensures
        pipe.pop_block(0) == pipe,
        pipe.played(0) == Seq::<u32>::empty(),
        pipe.pop_block(count + 1) == pipe.pop_block(count).pop(),
        pipe.played(count + 1) == pipe.played(count).push(pipe.pop_block(count).front()),
        pipe.pop_block(count).wf(),
        pipe.played(count).len() == count,
{
}

/// A prefilled pipe driven one-to-one never overflows and never runs dry, so
/// every push is matched by a pop of a real sample; what comes out is the
/// input delayed by exactly the prefilled length, and that many samples stay
/// in flight.
pub proof fn lemma_fixed_latency(latency: nat, input: Seq<u32>)
    requires
        0 < latency,
    ensures
        ({
            let run = PipeView::prefilled(latency).drive(input);
            let delayed = silence(latency) + input;
            &&& run.dropped == 0
            &&& run.underruns == 0
            &&& run.played == delayed.take(input.len() as int)
            &&& run.pipe.samples == delayed.skip(input.len() as int)
            &&& run.pipe.samples.len() == latency
            &&& run.pipe.capacity == 2 * latency
            &&& forall|i: int|
                0 <= i < input.len() ==> run.played[i] == (if i < latency {
                    SILENCE
                } else {
                    input[i - latency]
                })
        }),
    decreases input.len(),
{
    if input.len() > 0 {
        lemma_fixed_latency(latency, input.drop_last());
    }
}

/// A `ringbuf` heap ring buffer of sample bit patterns, owned as a whole.
#[verifier::external_body]
pub struct SampleRing {
    inner: HeapRb<u32>,
}

/// The samples that a ring buffer holds, eldest first.
pub uninterp spec fn ring_samples(ring: SampleRing) -> Seq<u32>;

/// The capacity that a ring buffer was created with.
pub uninterp spec fn ring_capacity(ring: SampleRing) -> nat;

/// `ringbuf::HeapRb::new`: an empty ring buffer of exactly the capacity asked
/// for. The call panics on a zero capacity and on one whose bytes exceed what
/// an allocation may span; both are excluded here.
#[verifier::external_body]
fn ring_new(capacity: usize) -> (ring: SampleRing)
    requires
        0 < capacity,
        capacity * 4 <= isize::MAX,
    ensures
        ring_samples(ring) == Seq::<u32>::empty(),
        ring_capacity(ring) == capacity,
{
    SampleRing { inner: HeapRb::new(capacity) }
}

/// `ringbuf::traits::Producer::try_push` on an unsplit ring buffer: the item
/// is appended unless the buffer is full, in which case nothing changes and
/// the item is handed back.
#[verifier::external_body]
fn ring_try_push(ring: &mut SampleRing, sample: u32) -> (pushed: bool)
    ensures
        ring_capacity(*final(ring)) == ring_capacity(*old(ring)),
        pushed <==> ring_samples(*old(ring)).len() < ring_capacity(*old(ring)),
        pushed ==> ring_samples(*final(ring)) == ring_samples(*old(ring)).push(sample),
        !pushed ==> ring_samples(*final(ring)) == ring_samples(*old(ring)),
    no_unwind
{
    ring.inner.try_push(sample).is_ok()
}

/// `ringbuf::traits::Consumer::try_pop` on an unsplit ring buffer: the eldest
/// item is removed and returned, or `None` when the buffer is empty.
#[verifier::external_body]
fn ring_try_pop(ring: &mut SampleRing) -> (popped: Option<u32>)
    ensures
        ring_capacity(*final(ring)) == ring_capacity(*old(ring)),
        popped is Some <==> ring_samples(*old(ring)).len() > 0,
        popped matches Some(sample) ==> sample == ring_samples(*old(ring))[0]
            && ring_samples(*final(ring)) == ring_samples(*old(ring)).drop_first(),
        popped is None ==> ring_samples(*final(ring)) == ring_samples(*old(ring)),
    no_unwind
{
    ring.inner.try_pop()
}

/// `ringbuf::traits::Observer::occupied_len` on an unsplit ring buffer: the
/// number of items stored.
#[verifier::external_body]
fn ring_occupied_len(ring: &SampleRing) -> (len: usize)
    ensures
        len == ring_samples(*ring).len(),
{
    ring.inner.occupied_len()
}

/// `ringbuf::traits::Observer::capacity` on an unsplit ring buffer.
#[verifier::external_body]
fn ring_capacity_of(ring: &SampleRing) -> (capacity: usize)
    ensures
        capacity == ring_capacity(*ring),
{
    ring.inner.capacity().get()
}

/// The writing end of a split `ringbuf` heap ring buffer.
#[verifier::external_body]
pub struct PipeProducer {
    inner: HeapProd<u32>,
}

/// The reading end of a split `ringbuf` heap ring buffer.
#[verifier::external_body]
pub struct PipeConsumer {
    inner: HeapCons<u32>,
}

/// The free slots that the writing end knows of: the capacity less what lay
/// between the read position it last looked up and its own write position.
/// The reading end can only free more, so this many pushes are sure to
/// succeed whatever the other thread does.
pub uninterp spec fn producer_room(producer: PipeProducer) -> nat;

/// The samples that the reading end knows of, eldest first: those between
/// its own read position and the write position it last looked up. The
/// writing end can only add behind them, so they are what the next pops
/// return whatever the other thread does.
pub uninterp spec fn consumer_pending(consumer: PipeConsumer) -> Seq<u32>;

/// `ringbuf::traits::Split::split`: the ring buffer moves behind a shared
/// pointer and its two ends are handed out. Each end starts from the
/// positions of the buffer as it is split, so the writing end knows of all
/// free slots and the reading end of all samples.
#[verifier::external_body]
fn ring_split(ring: SampleRing) -> (ends: (PipeProducer, PipeConsumer))
    ensures
        producer_room(ends.0) == ring_capacity(ring) - ring_samples(ring).len(),
        consumer_pending(ends.1) == ring_samples(ring),
{
    let (producer, consumer) = ring.inner.split();
    (PipeProducer { inner: producer }, PipeConsumer { inner: consumer })
}

/// `ringbuf::traits::Producer::try_push` on the writing end. With a free
/// slot known, the item goes in and one slot less is known free. With none
/// known, the end looks the read position up again, and whether the push
/// succeeds depends on how far the other thread has read; a push that
/// fails leaves no free slot known.
#[verifier::external_body]
fn producer_try_push(producer: &mut PipeProducer, sample: u32) -> (pushed: bool)
    ensures
        producer_room(*old(producer)) > 0 ==> pushed && producer_room(*final(producer))
            == producer_room(*old(producer)) - 1,
        !pushed ==> producer_room(*final(producer)) == 0,
{
    producer.inner.try_push(sample).is_ok()
}

/// `ringbuf::traits::Consumer::try_pop` on the reading end. With a sample
/// known, the eldest is removed and returned. With none known, the end
/// looks the write position up again, and whether there is a sample
/// depends on how far the other thread has written; a pop that returns
/// `None` leaves no sample known.
#[verifier::external_body]
fn consumer_try_pop(consumer: &mut PipeConsumer) -> (popped: Option<u32>)
    ensures
        consumer_pending(*old(consumer)).len() > 0 ==> popped == Some(
            consumer_pending(*old(consumer))[0],
        ) && consumer_pending(*final(consumer)) == consumer_pending(*old(consumer)).drop_first(),
        popped is None ==> consumer_pending(*final(consumer)).len() == 0,
{
    consumer.inner.try_pop()
}

impl PipeProducer {
    /// The capture callback's step: offers each sample of `block` in order
    /// and drops, without blocking or retrying, each one that finds the pipe
    /// full. Returns how many samples went in: all of them if the block is
    /// no longer than the room known beforehand, and at least that room
    /// otherwise. What more goes in depends on the render thread.
    pub fn push_block(&mut self, block: &[u32]) -> (accepted: usize)
        ensures
            accepted <= block@.len(),
            block@.len() <= producer_room(*old(self)) ==> accepted == block@.len()
                && producer_room(*final(self)) == producer_room(*old(self)) - block@.len(),
            block@.len() > producer_room(*old(self)) ==> accepted >= producer_room(*old(self)),
    {
        let ghost room = producer_room(*self);
        let mut accepted: usize = 0;
        let mut i: usize = 0;
        while i < block.len()
            invariant
                i <= block.len(),
                accepted <= i,
                i <= room ==> accepted == i && producer_room(*self) == room - i,
                i > room ==> accepted >= room,
            decreases block.len() - i,
        {
            if producer_try_push(self, block[i]) {
                accepted += 1;
            }
            i += 1;
        }
        accepted
    }
}

impl PipeConsumer {
    /// The render callback's step: `count` samples, each one popped from the
    /// pipe or, where the pipe had none, silence. The samples known
    /// beforehand come first and in order; what follows them depends on the
    /// capture thread.
    pub fn pop_block(&mut self, count: usize) -> (out: Vec<u32>)
        ensures
            out@.len() == count,
            forall|i: int|
                0 <= i < count && i < consumer_pending(*old(self)).len() ==> out@[i]
                    == consumer_pending(*old(self))[i],
            count <= consumer_pending(*old(self)).len() ==> consumer_pending(*final(self))
                == consumer_pending(*old(self)).skip(count as int),
    {
        let ghost pending = consumer_pending(*self);
        let mut out: Vec<u32> = Vec::with_capacity(count);
        let mut i: usize = 0;
        while i < count
            invariant
                i <= count,
                out@.len() == i,
                forall|k: int| 0 <= k < i && k < pending.len() ==> out@[k] == pending[k],
                i <= pending.len() ==> consumer_pending(*self) == pending.skip(i as int),
            decreases count - i,
        {
            let popped = consumer_try_pop(self);
            out.push(sample_or_silence(popped));
            i += 1;
        }
        out
    }
}

/// The sample pipe while one owner holds both of its ends.
pub struct RingPipe {
    ring: SampleRing,
}

impl View for RingPipe {
    type V = PipeView;

    closed spec fn view(&self) -> PipeView {
        PipeView { samples: ring_samples(self.ring), capacity: ring_capacity(self.ring) }
    }
}

impl RingPipe {
    #[verifier::type_invariant]
    spec fn inv(self) -> bool {
        self@.wf()
    }

    /// A pipe that delays by `latency_samples`: capacity twice that, and
    /// that many samples of silence already in it. `None` when no such pipe
    /// can be allocated.
    pub fn with_latency(latency_samples: usize) -> (made: Option<RingPipe>)
        ensures
            made is Some <==> pipe_fits(latency_samples as nat),
            made matches Some(pipe) ==> pipe@ == PipeView::prefilled(latency_samples as nat),
    {
        if latency_samples == 0 || latency_samples > (isize::MAX as usize) / 8 {
            return None;
        }
        let mut ring = ring_new(2 * latency_samples);
        let mut filled: usize = 0;
        while filled < latency_samples
            invariant
                filled <= latency_samples,
                ring_capacity(ring) == 2 * latency_samples,
                ring_samples(ring) == silence(filled as nat),
            decreases latency_samples - filled,
        {
            let _ = ring_try_push(&mut ring, SILENCE);
            filled += 1;
        }
        Some(RingPipe { ring })
    }

    /// Pushes one sample. A full pipe drops the sample, stays as it was and
    /// reports `false`; nothing blocks.
    pub fn push(&mut self, sample: u32) -> (pushed: bool)
        ensures
            pushed == !old(self)@.is_full(),
            final(self)@ == old(self)@.push(sample),
            old(self)@.is_full() ==> final(self)@ == old(self)@,
            final(self)@.wf(),
    {
        proof {
            use_type_invariant(&*self);
        }
        ring_try_push(&mut self.ring, sample)
    }

    /// Pops the eldest sample, or `None` from an empty pipe.
    pub fn try_pop(&mut self) -> (popped: Option<u32>)
        ensures
            popped is None <==> old(self)@.is_empty(),
            popped matches Some(sample) ==> sample == old(self)@.front(),
            final(self)@ == old(self)@.pop(),
            final(self)@.wf(),
    {
        proof {
            use_type_invariant(&*self);
        }
        ring_try_pop(&mut self.ring)
    }

    /// Pops the eldest sample; an empty pipe yields silence and stays empty.
    pub fn pop_or_silence(&mut self) -> (sample: u32)
        ensures
            sample == old(self)@.front(),
            final(self)@ == old(self)@.pop(),
            old(self)@.is_empty() ==> sample == SILENCE && final(self)@ == old(self)@,
            final(self)@.wf(),
    {
        let popped = self.try_pop();
        sample_or_silence(popped)
    }

    /// The capture side's step: pushes each sample of `block` in order and
    /// drops, without blocking, what no longer fits. Returns how many
    /// samples went in.
    pub fn push_block(&mut self, block: &[u32]) -> (accepted: usize)
        ensures
            accepted == old(self)@.accepts(block@.len()),
            final(self)@ == old(self)@.push_block(block@),
            final(self)@.wf(),
    {
        proof {
            use_type_invariant(&*self);
        }
        let mut accepted: usize = 0;
        let mut i: usize = 0;
        while i < block.len()
            invariant
                i <= block.len(),
                old(self)@.wf(),
                accepted == old(self)@.accepts(i as nat),
                self@ == old(self)@.push_block(block@.take(i as int)),
            decreases block.len() - i,
        {
            if self.push(block[i]) {
                accepted += 1;
            }
            i += 1;
        }
        accepted
    }

    /// The render side's step: pops `count` samples in order, with silence
    /// in place of each sample that the pipe could not supply.
    pub fn pop_block(&mut self, count: usize) -> (out: Vec<u32>)
        ensures
            out@ == old(self)@.played(count as nat),
            out@.len() == count,
            final(self)@ == old(self)@.pop_block(count as nat),
            final(self)@.wf(),
    {
        proof {
            use_type_invariant(&*self);
        }
        let mut out: Vec<u32> = Vec::with_capacity(count);
        let mut i: usize = 0;
        while i < count
            invariant
                i <= count,
                old(self)@.wf(),
                out@ == old(self)@.played(i as nat),
                self@ == old(self)@.pop_block(i as nat),
            decreases count - i,
        {
            let sample = self.pop_or_silence();
            out.push(sample);
            i += 1;
        }
        out
    }

    /// Parts the two ends, one for the capture thread and one for the
    /// render thread. The writing end starts out knowing of every free slot
    /// and the reading end of every sample, so each thread can run ahead of
    /// the other by that much before a sample is dropped or silence played.
    pub fn split(self) -> (ends: (PipeProducer, PipeConsumer))
        ensures
            producer_room(ends.0) == self@.vacant(),
            consumer_pending(ends.1) == self@.samples,
    {
        proof {
            use_type_invariant(&self);
        }
        ring_split(self.ring)
    }

    /// The number of samples waiting in the pipe.
    pub fn len(&self) -> (len: usize)
        ensures
            len == self@.samples.len(),
            len <= self@.capacity,
    {
        proof {
            use_type_invariant(self);
        }
        ring_occupied_len(&self.ring)
    }

    /// The fixed number of slots.
    pub fn capacity(&self) -> (capacity: usize)
        ensures
            capacity == self@.capacity,
            capacity > 0,
    {
        proof {
            use_type_invariant(self);
        }
        ring_capacity_of(&self.ring)
    }
}

/// What the render side plays for the outcome of one pop: the sample, or
/// silence when the pipe had none.
pub fn sample_or_silence(popped: Option<u32>) -> (sample: u32)
    ensures
        sample == (match popped {
            Some(s) => s,
            None => SILENCE,
        }),
{
    match popped {
        Some(s) => s,
        None => SILENCE,
    }
}

} // verus!
