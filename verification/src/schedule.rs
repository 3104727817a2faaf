//! Scheduling: fixing the local play instant of each decoded chunk.
//!
//! The play instant comes from the clock translation of the chunk's origin
//! timestamp when one is available — that is authoritative and enables
//! synchronized multi-listener output. Without a translation the scheduler
//! falls back to accumulating durations from a buffer-latency-delayed
//! anchor seeded at the first fallback-scheduled chunk, so consecutive
//! fallback chunks are contiguous, with no gap and no overlap. Chunks
//! already scheduled from the fallback anchor are never re-synchronized
//! retroactively once a translation becomes available.

use vstd::prelude::*;
use vstd::arithmetic::div_mod::lemma_div_basics_4;
use vstd::arithmetic::div_mod::lemma_div_basics_5;
use vstd::arithmetic::mul::lemma_mul_inequality;

verus! {

/// Duration, in microseconds, of a chunk of `sample_count` interleaved
/// samples at `channels` channels and `sample_rate` frames per second:
/// whole frames, then `frames * 1_000_000 / sample_rate`, every division
/// truncating.
pub open spec fn spec_chunk_duration_us(sample_count: int, channels: int, sample_rate: int) -> int {
    ((sample_count / channels) * 1_000_000) / sample_rate
}

/// Duration of one decoded chunk in microseconds.
///
/// The bound on `sample_count` keeps `frames * 1_000_000` inside `u64`; it
/// admits hours of audio in a single chunk.
pub fn chunk_duration_us(sample_count: usize, channels: u8, sample_rate: u32) -> (d: u64)
    requires
        channels >= 1,
        sample_rate >= 1,
        sample_count <= 0xFFFF_FFFF,
    ensures
        d == spec_chunk_duration_us(sample_count as int, channels as int, sample_rate as int),
        d <= 0x10_0000_0000_0000,
{
    let frames: usize = sample_count / (channels as usize);
    proof {
        lemma_div_basics_4(sample_count as int, channels as int);
        lemma_div_basics_5(sample_count as int, channels as int);
        lemma_mul_inequality(0, frames as int, 1_000_000);
        lemma_mul_inequality(frames as int, 0x1_0000_0000, 1_000_000);
        lemma_div_basics_4(frames as int * 1_000_000, sample_rate as int);
        lemma_div_basics_5(frames as int * 1_000_000, sample_rate as int);
    }
    let scaled: u64 = (frames as u64) * 1_000_000;
    scaled / (sample_rate as u64)
}

/// The fallback scheduling state: an optional cursor holding the local
/// instant the next fallback-scheduled chunk should start at, and the
/// configured buffer latency that seeds it.
pub struct Scheduler {
    /// Local monotonic instant, microseconds, where the next
    /// fallback-scheduled chunk begins; `None` until fallback scheduling
    /// is first needed and after every reset.
    fallback_cursor: Option<i64>,
    /// Latency added ahead of the first fallback-scheduled chunk,
    /// microseconds.
    buffer_latency_us: i64,
}

impl Scheduler {
    /// The current fallback cursor.
    pub closed spec fn spec_cursor(&self) -> Option<i64> {
        self.fallback_cursor
    }

    /// The configured buffer latency in microseconds.
    pub closed spec fn spec_latency(&self) -> i64 {
        self.buffer_latency_us
    }

    /// A scheduler is well formed when its latency is a sane non-negative
    /// bound and its cursor, when set, is a non-negative instant.
    pub open spec fn wf(&self) -> bool {
        &&& 0 <= self.spec_latency() <= 3_600_000_000
        &&& (self.spec_cursor() matches Some(c) ==> c >= 0)
    }

    /// A fresh scheduler with no fallback anchor, from a buffer latency
    /// given in milliseconds.
    pub fn new(buffer_latency_ms: u32) -> (r: Scheduler)
        requires
            buffer_latency_ms <= 3_600_000,
        ensures
            r.wf(),
            r.spec_cursor() is None,
            r.spec_latency() == buffer_latency_ms * 1000,
    {
        Scheduler { fallback_cursor: None, buffer_latency_us: (buffer_latency_ms as i64) * 1000 }
    }

    /// The current fallback cursor, for callers that must bound how far
    /// it may still advance.
    pub fn cursor(&self) -> (r: Option<i64>)
        ensures
            r == self.spec_cursor(),
    {
        self.fallback_cursor
    }

    /// Drop the fallback anchor; the next fallback-scheduled chunk seeds a
    /// fresh one. Used on stream transitions.
    pub fn reset(&mut self)
        ensures
            final(self).spec_cursor() is None,
            final(self).spec_latency() == old(self).spec_latency(),
            old(self).wf() ==> final(self).wf(),
    {
        self.fallback_cursor = None;
    }

    /// Fix the play instant of one chunk.
    ///
    /// A translated instant is authoritative and leaves the fallback
    /// anchor untouched. Otherwise the chunk is scheduled at the fallback
    /// cursor — seeded at `now + latency` when absent — and the cursor
    /// advances by the chunk's duration, so consecutive fallback chunks
    /// are contiguous.
    pub fn plan(&mut self, translated: Option<i64>, duration_us: u64, now_us: i64) -> (play_at:
        i64)
        requires
            old(self).wf(),
            0 <= now_us <= 0x1000_0000_0000_0000,
            duration_us <= 0x10_0000_0000_0000,
            (old(self).spec_cursor() matches Some(c) ==> c + duration_us <= i64::MAX),
        ensures
            final(self).wf(),
            final(self).spec_latency() == old(self).spec_latency(),
            match translated {
                Some(t) => {
                    &&& play_at == t
                    &&& final(self).spec_cursor() == old(self).spec_cursor()
                },
                None => {
                    &&& match old(self).spec_cursor() {
                        None => {
                            &&& play_at == now_us + old(self).spec_latency()
                            &&& final(self).spec_cursor() == Some(
                                (now_us + old(self).spec_latency() + duration_us) as i64,
                            )
                        },
                        Some(c) => {
                            &&& play_at == c
                            &&& final(self).spec_cursor() == Some((c + duration_us) as i64)
                        },
                    }
                },
            },
    {
        match translated {
            Some(t) => t,
            None => {
                let start: i64 = match self.fallback_cursor {
                    Some(c) => c,
                    None => now_us + self.buffer_latency_us,
                };
                self.fallback_cursor = Some(start + (duration_us as i64));
                start
            },
        }
    }
}

/// Fallback contiguity: with no clock translation available, three chunks
/// of durations `d1`, `d2`, `d3` planned consecutively from a fresh
/// fallback anchor receive the play instants `pt`, `pt + d1`, `pt + d1 +
/// d2`, where `pt` is the first plan's `now` plus the buffer latency —
/// zero gap and zero overlap between consecutive chunks.
pub proof fn lemma_fallback_contiguous(
    s0: Scheduler,
    s1: Scheduler,
    s2: Scheduler,
    s3: Scheduler,
    p1: i64,
    p2: i64,
    p3: i64,
    d1: u64,
    d2: u64,
    d3: u64,
    now1: i64,
    now2: i64,
    now3: i64,
)
    requires
        s0.wf(),
        s0.spec_cursor() is None,
        0 <= now1 <= 0x1000_0000_0000_0000,
        d1 <= 0x10_0000_0000_0000,
        d2 <= 0x10_0000_0000_0000,
        d3 <= 0x10_0000_0000_0000,
        plan_step(s0, s1, p1, None, d1, now1),
        plan_step(s1, s2, p2, None, d2, now2),
        plan_step(s2, s3, p3, None, d3, now3),
    ensures
        p1 == now1 + s0.spec_latency(),
        p2 == p1 + d1,
        p3 == p1 + d1 + d2,
{
}

/// The relation `plan` establishes between the scheduler before and after
/// fixing one chunk's play instant; `lemma_fallback_contiguous` chains it.
pub open spec fn plan_step(
    pre: Scheduler,
    post: Scheduler,
    play_at: i64,
    translated: Option<i64>,
    duration_us: u64,
    now_us: i64,
) -> bool {
    &&& post.spec_latency() == pre.spec_latency()
    &&& match translated {
        Some(t) => {
            &&& play_at == t
            &&& post.spec_cursor() == pre.spec_cursor()
        },
        None => {
            &&& match pre.spec_cursor() {
                None => {
                    &&& play_at == now_us + pre.spec_latency()
                    &&& post.spec_cursor() == Some(
                        (now_us + pre.spec_latency() + duration_us) as i64,
                    )
                },
                Some(c) => {
                    &&& play_at == c
                    &&& post.spec_cursor() == Some((c + duration_us) as i64)
                },
            }
        },
    }
}

} // verus!
