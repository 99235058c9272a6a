//! Bounded single-producer/single-consumer sample queue.
//!
//! The queue is backed by the `ringbuf` crate. The engine fills it from the
//! decode loop; the realtime output callback drains it. [`SampleQueue`] wraps
//! the ring buffer with an interface whose contracts speak about the queued
//! samples as a sequence, and [`render_output`] is the callback's verified
//! core: it pops samples, applies the volume factor, and writes silence when
//! the engine is not audible or the queue runs empty.

use vstd::prelude::*;

use ringbuf::traits::{Consumer, Observer, Producer};

use crate::samples::{apply_volume, clamp_i32, scaled};

verus! {

/// Bounded FIFO queue of fixed-point PCM samples, sized at creation and never
/// resized. Exactly one producer (the decode loop) writes and one consumer
/// (the realtime callback) reads. Holds a `ringbuf::HeapRb`, which Verus does
/// not see; every method below is trusted to state what the ringbuf source
/// shows.
#[verifier::external_body]
pub struct SampleQueue {
    rb: ringbuf::HeapRb<i32>,
}

/// The samples queued in a ring buffer, eldest first.
pub uninterp spec fn queue_seq(q: SampleQueue) -> Seq<i32>;

/// The fixed capacity a ring buffer was created with.
pub uninterp spec fn queue_cap(q: SampleQueue) -> nat;

impl View for SampleQueue {
    type V = Seq<i32>;

    open spec fn view(&self) -> Seq<i32> {
        queue_seq(*self)
    }
}

impl SampleQueue {
    /// The capacity the queue was created with.
    pub open spec fn cap(&self) -> nat {
        queue_cap(*self)
    }

    /// The queue never holds more samples than its capacity.
    pub open spec fn wf(&self) -> bool {
        self@.len() <= self.cap() && self.cap() >= 1
    }

    /// Relies on ringbuf's `HeapRb::new`: a buffer of the given capacity,
    /// initially empty. (`new` panics on capacity zero, which the
    /// precondition excludes.)
    #[verifier::external_body]
    pub fn new(capacity: usize) -> (r: SampleQueue)
        requires
            capacity >= 1,
        ensures
            queue_seq(r) == Seq::<i32>::empty(),
            queue_cap(r) == capacity,
    {
        SampleQueue { rb: ringbuf::HeapRb::new(capacity) }
    }

    /// Relies on ringbuf's `Producer::push_slice`: appends as many items from
    /// the slice as there are free places, in order, and returns the count
    /// appended.
    #[verifier::external_body]
    pub fn push_slice(&mut self, data: &Vec<i32>) -> (r: usize)
        ensures
            queue_cap(*final(self)) == queue_cap(*old(self)),
            r == if data@.len() <= queue_cap(*old(self)) - queue_seq(*old(self)).len() {
                data@.len() as int
            } else {
                queue_cap(*old(self)) - queue_seq(*old(self)).len()
            },
            queue_seq(*final(self)) == queue_seq(*old(self)) + data@.take(r as int),
    {
        self.rb.push_slice(data.as_slice())
    }

    /// Relies on ringbuf's `Consumer::try_pop`: removes and returns the
    /// eldest item, or returns `None` and leaves the buffer unchanged when it
    /// is empty.
    #[verifier::external_body]
    pub fn try_pop(&mut self) -> (r: Option<i32>)
        ensures
            queue_cap(*final(self)) == queue_cap(*old(self)),
            queue_seq(*old(self)).len() == 0 ==> r is None && queue_seq(*final(self))
                == queue_seq(*old(self)),
            queue_seq(*old(self)).len() > 0 ==> r == Some(queue_seq(*old(self))[0]) && queue_seq(
                *final(self),
            ) == queue_seq(*old(self)).skip(1),
    {
        self.rb.try_pop()
    }

    /// Relies on ringbuf's `Observer::occupied_len`: the number of items
    /// stored.
    #[verifier::external_body]
    pub fn occupied(&self) -> (r: usize)
        ensures
            r == queue_seq(*self).len(),
    {
        self.rb.occupied_len()
    }

    /// Relies on ringbuf's `Observer::capacity`: the fixed capacity, constant
    /// for the buffer's whole lifetime.
    #[verifier::external_body]
    pub fn capacity(&self) -> (r: usize)
        ensures
            r == queue_cap(*self),
    {
        self.rb.capacity().get()
    }

    /// The number of free places left.
    pub fn vacant(&self) -> (r: usize)
        requires
            self.wf(),
        ensures
            r == self.cap() - self@.len(),
    {
        let cap = self.capacity();
        let occ = self.occupied();
        cap - occ
    }
}

/// What one output slot receives: the queued sample at offset `i` scaled by
/// `volume`, or silence once the queue's samples run out.
pub open spec fn rendered_slot(queued: Seq<i32>, volume: int, i: int) -> int {
    if i < queued.len() {
        clamp_i32(scaled(queued[i] as int, volume))
    } else {
        0
    }
}

/// The realtime callback's core: produce `n` output samples. When the engine
/// is not audible, all slots are silence and the queue is left untouched;
/// otherwise each slot takes the next queued sample scaled by `volume`, and
/// slots past the queue's supply are silence (never stale or uninitialized
/// data).
pub fn render_output(q: &mut SampleQueue, playing: bool, volume: u32, n: usize) -> (out: Vec<i32>)
    requires
        old(q).wf(),
    ensures
        final(q).wf(),
        final(q).cap() == old(q).cap(),
        out@.len() == n,
        !playing ==> final(q)@ == old(q)@ && forall|i: int| 0 <= i < n ==> out@[i] == 0i32,
        playing ==> {
            &&& forall|i: int|
                0 <= i < n ==> out@[i] as int == rendered_slot(old(q)@, volume as int, i)
            &&& final(q)@ == (if n <= old(q)@.len() {
                old(q)@.skip(n as int)
            } else {
                Seq::<i32>::empty()
            })
        },
{
    let mut out: Vec<i32> = Vec::new();
    if !playing {
        while out.len() < n
            invariant
                out@.len() <= n,
                forall|i: int| 0 <= i < out@.len() ==> out@[i] == 0i32,
            decreases n - out@.len(),
        {
            out.push(0);
        }
        return out;
    }
    let ghost start = q@;
    while out.len() < n
        invariant
            q.wf(),
            q.cap() == old(q).cap(),
            out@.len() <= n,
            q@ == (if out@.len() <= start.len() {
                start.skip(out@.len() as int)
            } else {
                Seq::<i32>::empty()
            }),
            forall|i: int|
                0 <= i < out@.len() ==> out@[i] as int == rendered_slot(start, volume as int, i),
        decreases n - out@.len(),
    {
        match q.try_pop() {
            Some(s) => {
                let v = apply_volume(s, volume);
                proof {
                    assert(start.skip(out@.len() as int)[0] == start[out@.len() as int]);
                    assert(start.skip(out@.len() as int).skip(1) =~= start.skip(
                        out@.len() as int + 1,
                    ));
                }
                out.push(v);
            },
            None => {
                proof {
                    if out@.len() < start.len() {
                        assert(start.skip(out@.len() as int).len() > 0);
                    }
                    assert(Seq::<i32>::empty().skip(0) =~= Seq::<i32>::empty());
                }
                out.push(0);
            },
        }
    }
    out
}

} // verus!
