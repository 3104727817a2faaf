//! The playback queue: an ordered, first-in-first-out buffer of
//! ready-to-play audio shared between the receive path and the playback
//! engine.
//!
//! Arrival order is assumed to equal intended play order; the engine never
//! reorders. The queue is cleared wholesale only by a stop command or a
//! stream transition. The first-in-first-out law at the end of this module
//! states that any interleaving of enqueues with dequeues neither loses nor
//! duplicates a buffer and hands buffers out in enqueue order.

use vstd::prelude::*;
use crate::format::AudioBuffer;
use std::collections::VecDeque;

verus! {

/// Ordered, unbounded, first-in-first-out buffer of decoded audio.
pub struct PlaybackQueue {
    items: VecDeque<AudioBuffer>,
}

impl View for PlaybackQueue {
    type V = Seq<AudioBuffer>;

    closed spec fn view(&self) -> Seq<AudioBuffer> {
        self.items@
    }
}

impl PlaybackQueue {
    /// An empty queue.
    pub fn new() -> (r: PlaybackQueue)
        ensures
            r@ == Seq::<AudioBuffer>::empty(),
    {
        PlaybackQueue { items: VecDeque::new() }
    }

    /// Number of buffers waiting to play.
    pub fn len(&self) -> (n: usize)
        ensures
            n == self@.len(),
    {
        self.items.len()
    }

    /// Enqueue one buffer at the tail.
    pub fn push_back(&mut self, buffer: AudioBuffer)
        ensures
            final(self)@ == old(self)@.push(buffer),
    {
        self.items.push_back(buffer);
    }

    /// Put a buffer back at the head, ahead of everything else; used when
    /// the head was popped but is not yet due.
    pub fn push_front(&mut self, buffer: AudioBuffer)
        ensures
            final(self)@ == seq![buffer] + old(self)@,
    {
        self.items.push_front(buffer);
    }

    /// Dequeue the head buffer, or `None` when the queue is empty.
    pub fn pop_front(&mut self) -> (r: Option<AudioBuffer>)
        ensures
            match r {
                Some(b) => {
                    &&& old(self)@.len() > 0
                    &&& b == old(self)@[0]
                    &&& final(self)@ == old(self)@.skip(1)
                },
                None => {
                    &&& old(self)@.len() == 0
                    &&& final(self)@ == old(self)@
                },
            },
    {
        let r = self.items.pop_front();
        proof {
            if old(self)@.len() > 0 {
                assert(old(self)@.subrange(1, old(self)@.len() as int) =~= old(self)@.skip(1));
            }
        }
        r
    }

    /// Discard every queued buffer.
    pub fn clear(&mut self)
        ensures
            final(self)@ == Seq::<AudioBuffer>::empty(),
    {
        self.items.clear();
    }
}

/// One run of a producer interleaved with a consumer, in the abstract: the
/// schedule says, step by step, whether the producer enqueues the next of
/// its buffers (`true`; a no-op once all are enqueued) or the consumer
/// dequeues the head (`false`; a no-op on an empty queue). The result is
/// the remaining queue, the dequeued sequence, and how many buffers were
/// enqueued.
pub open spec fn fifo_run<A>(xs: Seq<A>, sched: Seq<bool>) -> (Seq<A>, Seq<A>, int)
    decreases sched.len(),
{
    if sched.len() == 0 {
        (Seq::<A>::empty(), Seq::<A>::empty(), 0)
    } else {
        let (q, out, next) = fifo_run(xs, sched.drop_last());
        if sched.last() {
            if next < xs.len() {
                (q.push(xs[next]), out, next + 1)
            } else {
                (q, out, next)
            }
        } else {
            if q.len() > 0 {
                (q.skip(1), out.push(q[0]), next)
            } else {
                (q, out, next)
            }
        }
    }
}

/// First-in-first-out law: however enqueues of `xs` are interleaved with
/// dequeues, no buffer is lost or duplicated and the dequeued sequence,
/// followed by what still waits in the queue, is exactly the enqueued
/// buffers in enqueue order.
pub proof fn lemma_fifo_order<A>(xs: Seq<A>, sched: Seq<bool>)
    ensures
        ({
            let (q, out, next) = fifo_run(xs, sched);
            &&& 0 <= next <= xs.len()
            &&& out + q == xs.take(next)
        }),
    decreases sched.len(),
{
    if sched.len() == 0 {
        let (q, out, next) = fifo_run(xs, sched);
        assert(out + q =~= xs.take(0));
    } else {
        lemma_fifo_order(xs, sched.drop_last());
        let (q0, out0, next0) = fifo_run(xs, sched.drop_last());
        let (q, out, next) = fifo_run(xs, sched);
        if sched.last() {
            if next0 < xs.len() {
                assert(out0 + q0.push(xs[next0]) =~= (out0 + q0).push(xs[next0]));
                assert((xs.take(next0)).push(xs[next0]) =~= xs.take(next0 + 1));
            }
        } else {
            if q0.len() > 0 {
                assert(out0.push(q0[0]) + q0.skip(1) =~= out0 + q0);
            }
        }
    }
}

} // verus!
