use vstd::prelude::*;
use ringbuffer::{ConstGenericRingBuffer, RingBuffer};

verus! {

/// How many recent samples the tracker keeps: about a tenth of a second at
/// a 44.1 kHz sample rate.
pub const BUFFER_SIZE: usize = 4410;

#[verifier::external_type_specification]
#[verifier::external_body]
#[verifier::reject_recursive_types(T)]
pub struct ExConstGenericRingBuffer<T, const CAP: usize>(ConstGenericRingBuffer<T, CAP>);

/// The samples a capture ring currently holds, oldest first.
pub uninterp spec fn ring_contents(r: ConstGenericRingBuffer<u64, 4410>) -> Seq<u64>;

/// Relies on `ConstGenericRingBuffer::default`: a freshly created ring
/// holds nothing.
#[verifier::external_body]
fn ring_new() -> (r: ConstGenericRingBuffer<u64, 4410>)
    ensures
        ring_contents(r) == Seq::<u64>::empty(),
{
    ConstGenericRingBuffer::default()
}

/// Relies on `RingBuffer::enqueue` on `ConstGenericRingBuffer`: it appends
/// the value at the newest end and, exactly when the ring is at capacity,
/// drops the oldest entry to make room.
#[verifier::external_body]
fn ring_enqueue(r: &mut ConstGenericRingBuffer<u64, 4410>, value: u64)
    ensures
        ring_contents(*final(r)) == push_capped(ring_contents(*old(r)), value),
{
    let _ = r.enqueue(value);
}

/// Relies on `RingBuffer::to_vec` on `ConstGenericRingBuffer`: it copies
/// the contents out, oldest first.
#[verifier::external_body]
fn ring_to_vec(r: &ConstGenericRingBuffer<u64, 4410>) -> (v: Vec<u64>)
    ensures
        v@ == ring_contents(*r),
{
    r.to_vec()
}

/// One insertion in the ring model: append at the newest end, dropping the
/// oldest entry when the ring is already at capacity.
pub open spec fn push_capped(s: Seq<u64>, value: u64) -> Seq<u64> {
    if s.len() < 4410 {
        s.push(value)
    } else {
        s.drop_first().push(value)
    }
}

/// A whole series of insertions in the ring model, first element pushed
/// first.
pub open spec fn push_all(s: Seq<u64>, xs: Seq<u64>) -> Seq<u64>
    decreases xs.len(),
{
    if xs.len() == 0 {
        s
    } else {
        push_all(push_capped(s, xs[0]), xs.drop_first())
    }
}

/// The window a history of samples leaves in the ring: the whole history
/// while it still fits, its most recent `BUFFER_SIZE` entries afterwards.
pub open spec fn ring_of(all: Seq<u64>) -> Seq<u64> {
    if all.len() <= 4410 {
        all
    } else {
        all.subrange(all.len() - 4410, all.len() as int)
    }
}

/// Dropping the oldest sample of an over-full history does not change the
/// window it leaves in the ring.
proof fn lemma_ring_of_drop_first(all: Seq<u64>)
    requires
        all.len() > 4410,
    ensures
        ring_of(all.drop_first()) == ring_of(all),
{
    if all.len() - 1 <= 4410 {
        assert(all.drop_first() =~= all.subrange(all.len() - 4410, all.len() as int));
    } else {
        assert(all.drop_first().subrange(all.len() - 1 - 4410, all.len() - 1) =~= all.subrange(
            all.len() - 4410,
            all.len() as int,
        ));
    }
}

/// Pushing a series of samples onto a ring that holds `s` leaves exactly
/// the window of the combined history `s + xs`.
proof fn lemma_push_all_is_ring_of(s: Seq<u64>, xs: Seq<u64>)
    requires
        s.len() <= 4410,
    ensures
        push_all(s, xs) == ring_of(s + xs),
    decreases xs.len(),
{
    if xs.len() == 0 {
        assert(s + xs =~= s);
    } else {
        let s1 = push_capped(s, xs[0]);
        lemma_push_all_is_ring_of(s1, xs.drop_first());
        if s.len() < 4410 {
            assert(s1 + xs.drop_first() =~= s + xs);
        } else {
            assert(s1 + xs.drop_first() =~= (s + xs).drop_first());
            lemma_ring_of_drop_first(s + xs);
        }
    }
}

/// After at least `BUFFER_SIZE` samples have been pushed onto an initially
/// empty ring, the ring holds exactly the most recent `BUFFER_SIZE` of
/// them, in push order.
pub proof fn lemma_ring_keeps_most_recent(xs: Seq<u64>)
    requires
        xs.len() >= 4410,
    ensures
        push_all(Seq::<u64>::empty(), xs) == xs.subrange(xs.len() - 4410, xs.len() as int),
        push_all(Seq::<u64>::empty(), xs).len() == 4410,
{
    lemma_push_all_is_ring_of(Seq::<u64>::empty(), xs);
    assert(Seq::<u64>::empty() + xs =~= xs);
}

/// Keeps the most recently rendered samples for visualization.
///
/// The render callback is the sole writer; a visualization poll loop reads
/// whole snapshots at a much lower rate. Samples are carried as the raw
/// 64-bit representation the render callback hands in, so nothing here
/// inspects them. The mutual-exclusion boundary that lets two threads share
/// one tracker lives with the callers; the tracker itself is the ring and
/// its ordering rules.
pub struct SampleTracker {
    ring: ConstGenericRingBuffer<u64, 4410>,
}

impl View for SampleTracker {
    type V = Seq<u64>;

    /// The samples currently held, oldest first.
    closed spec fn view(&self) -> Seq<u64> {
        ring_contents(self.ring)
    }
}

impl SampleTracker {
    /// The ring never holds more than `BUFFER_SIZE` samples.
    pub open spec fn wf(&self) -> bool {
        self@.len() <= 4410
    }

    /// An empty tracker.
    pub fn new() -> (r: SampleTracker)
        ensures
            r@ == Seq::<u64>::empty(),
            r.wf(),
    {
        SampleTracker { ring: ring_new() }
    }

    /// Records one rendered sample, overwriting the oldest once the ring is
    /// full.
    pub fn add_sample(&mut self, sample: u64)
        requires
            old(self).wf(),
        ensures
            final(self)@ == push_capped(old(self)@, sample),
            final(self).wf(),
    {
        ring_enqueue(&mut self.ring, sample);
    }

    /// A snapshot of the recent samples, oldest first: a copy, so the
    /// reader never sees a half-written ring and the writer is blocked for
    /// no longer than the copy takes.
    pub fn samples_vec(&self) -> (v: Vec<u64>)
        ensures
            v@ == self@,
    {
        ring_to_vec(&self.ring)
    }
}

impl Default for SampleTracker {
    /// An empty tracker.
    fn default() -> (r: SampleTracker)
        ensures
            r@ == Seq::<u64>::empty(),
            r.wf(),
    {
        SampleTracker::new()
    }
}

} // verus!
