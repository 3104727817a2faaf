//! The playback engine: the deadline-driven consumer that owns the output
//! device, drains the queue in order, enforces scheduled play times,
//! applies volume, and processes control commands with priority.
//!
//! The engine is a pure state machine. Each iteration of the surrounding
//! loop first applies every pending control command in delivery order, then
//! asks `step` for one decision: keep idling while stopped, wait briefly on
//! an empty queue, push a far-future head back and poll again — the short
//! bounded poll is what keeps a stop responsive instead of sleeping a whole
//! far-future gap — or play the head after waiting out its remaining
//! delta. The caller performs the sleeps and the device write; a failed
//! write is fatal to the engine instance and is the caller's to surface.

use vstd::prelude::*;
use crate::format::{AudioBuffer, AudioFormat};
use crate::queue::PlaybackQueue;
use crate::volume::{scale_samples, spec_scaled_samples};

verus! {

/// How long to sleep between polls while stopped, microseconds.
pub const STOPPED_POLL_US: u64 = 10_000;

/// How long to sleep when the queue is empty, microseconds; streaming is
/// expected to refill it continuously.
pub const EMPTY_POLL_US: u64 = 500;

/// How long to sleep after pushing a far-future head back, microseconds.
pub const RETRY_POLL_US: u64 = 1_000;

/// A head due further than this in the future is pushed back and polled
/// for again rather than slept out, microseconds.
pub const NEAR_TERM_THRESHOLD_US: i64 = 100_000;

/// A control command from the remote controller, applied in delivery
/// order with priority over playback decisions.
#[derive(Debug, Clone, Copy, PartialEq, Eq, Structural)]
pub enum PlaybackControl {
    /// Clear the queue and release the output device immediately.
    Stop,
    /// Allow playback to continue; nothing else is reset.
    Resume,
    /// Set the volume consumed at write time, 0 to 100.
    SetVolume(u8),
}

/// The one decision an engine iteration takes; the caller performs the
/// sleeps and the device I/O it names.
pub enum EngineAction {
    /// The engine is stopped: sleep `STOPPED_POLL_US` without touching the
    /// queue.
    IdleWait,
    /// The queue is empty: sleep `EMPTY_POLL_US` and retry.
    EmptyWait,
    /// The head is more than `NEAR_TERM_THRESHOLD_US` in the future: it
    /// was put back at the head; sleep `RETRY_POLL_US` and retry.
    RetryWait,
    /// Play the dequeued head: sleep `wait_us`, open the output device
    /// first if `open_device`, then write `samples`.
    Play {
        /// Remaining delta until the head's play instant, zero when it is
        /// already due.
        wait_us: u64,
        /// True when no device is bound yet: open one for `format` before
        /// writing. Lazily opening on the first real item after a stop
        /// defers the cold-start cost.
        open_device: bool,
        /// The stream format to open the device with.
        format: AudioFormat,
        /// The head's samples, scaled by the current volume.
        samples: Vec<i32>,
    },
}

/// The engine's state, abstracted for contracts: the stopped flag, the
/// write-time volume, whether an output device is bound, and the queue
/// contents in play order.
#[verifier::ext_equal]
pub struct EngineModel {
    /// True initially and after every stop; nothing plays while set.
    pub stopped: bool,
    /// Volume applied at write time, 0 to 100.
    pub volume: u8,
    /// True while an output device is bound.
    pub output_open: bool,
    /// The queued buffers, head first.
    pub queue: Seq<AudioBuffer>,
}

/// What one control command does to the engine state: a stop clears the
/// queue and releases the device, a resume only lifts the stopped flag,
/// and a volume change takes effect at the next write.
pub open spec fn spec_apply_command(m: EngineModel, cmd: PlaybackControl) -> EngineModel {
    match cmd {
        PlaybackControl::Stop => EngineModel {
            stopped: true,
            output_open: false,
            queue: Seq::empty(),
            ..m
        },
        PlaybackControl::Resume => EngineModel { stopped: false, ..m },
        PlaybackControl::SetVolume(v) => EngineModel { volume: v, ..m },
    }
}

/// A whole batch of commands applied in delivery order.
pub open spec fn spec_apply_commands(m: EngineModel, cmds: Seq<PlaybackControl>) -> EngineModel
    decreases cmds.len(),
{
    if cmds.len() == 0 {
        m
    } else {
        spec_apply_commands(spec_apply_command(m, cmds[0]), cmds.skip(1))
    }
}

/// One buffer enqueued at the tail.
pub open spec fn spec_enqueue(m: EngineModel, buffer: AudioBuffer) -> EngineModel {
    EngineModel { queue: m.queue.push(buffer), ..m }
}

/// A sequence of buffers enqueued at the tail, in order.
pub open spec fn spec_enqueue_all(m: EngineModel, buffers: Seq<AudioBuffer>) -> EngineModel
    decreases buffers.len(),
{
    if buffers.len() == 0 {
        m
    } else {
        spec_enqueue_all(spec_enqueue(m, buffers[0]), buffers.skip(1))
    }
}

/// Applying a batch extended by one more command equals applying the batch
/// and then the command.
pub proof fn lemma_apply_commands_snoc(
    m: EngineModel,
    cmds: Seq<PlaybackControl>,
    cmd: PlaybackControl,
)
    ensures
        spec_apply_commands(m, cmds.push(cmd)) == spec_apply_command(
            spec_apply_commands(m, cmds),
            cmd,
        ),
    decreases cmds.len(),
{
    if cmds.len() == 0 {
        reveal_with_fuel(spec_apply_commands, 2);
        assert(cmds.push(cmd)[0] == cmd);
        assert(cmds.push(cmd).skip(1) =~= Seq::<PlaybackControl>::empty());
    } else {
        assert(cmds.push(cmd)[0] == cmds[0]);
        assert(cmds.push(cmd).skip(1) =~= cmds.skip(1).push(cmd));
        lemma_apply_commands_snoc(spec_apply_command(m, cmds[0]), cmds.skip(1), cmd);
    }
}

/// After any sequence of enqueues followed by a stop, the queue length
/// settles to zero: the stop discards even future-scheduled audio.
pub proof fn lemma_stop_after_enqueues_empties_queue(m: EngineModel, buffers: Seq<AudioBuffer>)
    ensures
        spec_apply_command(spec_enqueue_all(m, buffers), PlaybackControl::Stop).queue.len() == 0,
{
}

/// An engine that stands stopped-out — empty queue, device released —
/// stays so under any further commands of the batch: a later resume or
/// volume change restores neither queued audio nor the device binding.
pub proof fn lemma_commands_preserve_cleared(m: EngineModel, cmds: Seq<PlaybackControl>)
    requires
        m.queue.len() == 0,
        !m.output_open,
    ensures
        spec_apply_commands(m, cmds).queue.len() == 0,
        !spec_apply_commands(m, cmds).output_open,
    decreases cmds.len(),
{
    if cmds.len() > 0 {
        lemma_commands_preserve_cleared(spec_apply_command(m, cmds[0]), cmds.skip(1));
    }
}

/// A stop anywhere in a batch leaves the queue cleared and the device
/// released at the end of the batch, regardless of the commands standing
/// before or after it in the same batch.
pub proof fn lemma_stop_in_batch_clears(m: EngineModel, cmds: Seq<PlaybackControl>)
    requires
        exists|i: int| 0 <= i < cmds.len() && cmds[i] == PlaybackControl::Stop,
    ensures
        spec_apply_commands(m, cmds).queue.len() == 0,
        !spec_apply_commands(m, cmds).output_open,
    decreases cmds.len(),
{
    let i = choose|i: int| 0 <= i < cmds.len() && cmds[i] == PlaybackControl::Stop;
    if i == 0 {
        lemma_commands_preserve_cleared(spec_apply_command(m, cmds[0]), cmds.skip(1));
    } else {
        assert(cmds.skip(1)[i - 1] == cmds[i]);
        lemma_stop_in_batch_clears(spec_apply_command(m, cmds[0]), cmds.skip(1));
    }
}

/// The last volume command in a batch wins: applying the whole batch in
/// delivery order leaves exactly the volume of its final volume command.
pub proof fn lemma_last_volume_in_batch_wins(m: EngineModel, cmds: Seq<PlaybackControl>, v: u8)
    requires
        cmds.len() > 0,
        cmds.last() == PlaybackControl::SetVolume(v),
    ensures
        spec_apply_commands(m, cmds).volume == v,
    decreases cmds.len(),
{
    if cmds.len() == 1 {
        reveal_with_fuel(spec_apply_commands, 2);
        assert(cmds[0] == cmds.last());
        assert(cmds.skip(1) =~= Seq::<PlaybackControl>::empty());
    } else {
        assert(cmds.skip(1).last() == cmds.last());
        lemma_last_volume_in_batch_wins(spec_apply_command(m, cmds[0]), cmds.skip(1), v);
    }
}

/// The playback engine; construct one, apply the pending commands each
/// iteration, then take the step it decides.
pub struct Engine {
    stopped: bool,
    volume: u8,
    output_open: bool,
    queue: PlaybackQueue,
}

impl Engine {
    /// The engine's abstract state.
    pub closed spec fn model(&self) -> EngineModel {
        EngineModel {
            stopped: self.stopped,
            volume: self.volume,
            output_open: self.output_open,
            queue: self.queue@,
        }
    }

    /// A well-formed engine never holds a volume above 100.
    pub open spec fn wf(&self) -> bool {
        self.model().volume <= 100
    }

    /// A fresh engine: stopped, no device bound, an empty queue, and the
    /// given initial volume.
    pub fn new(initial_volume: u8) -> (r: Engine)
        requires
            initial_volume <= 100,
        ensures
            r.wf(),
            r.model() == (EngineModel {
                stopped: true,
                volume: initial_volume,
                output_open: false,
                queue: Seq::<AudioBuffer>::empty(),
            }),
    {
        Engine {
            stopped: true,
            volume: initial_volume,
            output_open: false,
            queue: PlaybackQueue::new(),
        }
    }

    /// Number of buffers waiting to play.
    pub fn queue_len(&self) -> (n: usize)
        ensures
            n == self.model().queue.len(),
    {
        self.queue.len()
    }

    /// True while the engine is stopped.
    pub fn is_stopped(&self) -> (r: bool)
        ensures
            r == self.model().stopped,
    {
        self.stopped
    }

    /// The volume applied at write time.
    pub fn volume(&self) -> (v: u8)
        ensures
            v == self.model().volume,
    {
        self.volume
    }

    /// Enqueue one decoded buffer at the tail; arrival order is play
    /// order.
    pub fn enqueue(&mut self, buffer: AudioBuffer)
        requires
            old(self).wf(),
        ensures
            final(self).wf(),
            final(self).model() == spec_enqueue(old(self).model(), buffer),
    {
        self.queue.push_back(buffer);
    }

    /// Apply one control command.
    pub fn apply_command(&mut self, cmd: PlaybackControl)
        requires
            old(self).wf(),
            cmd matches PlaybackControl::SetVolume(v) ==> v <= 100,
        ensures
            final(self).wf(),
            final(self).model() == spec_apply_command(old(self).model(), cmd),
    {
        match cmd {
            PlaybackControl::Stop => {
                self.queue.clear();
                self.output_open = false;
                self.stopped = true;
            },
            PlaybackControl::Resume => {
                self.stopped = false;
            },
            PlaybackControl::SetVolume(v) => {
                self.volume = v;
            },
        }
    }

    /// Apply a whole drained batch of commands in delivery order, before
    /// any playback decision; the last volume in the batch wins, and any
    /// stop in the batch discards the queue it found.
    pub fn apply_commands(&mut self, cmds: &Vec<PlaybackControl>)
        requires
            old(self).wf(),
            forall|i: int|
                0 <= i < cmds@.len() ==> (#[trigger] cmds@[i] matches PlaybackControl::SetVolume(v)
                    ==> v <= 100),
        ensures
            final(self).wf(),
            final(self).model() == spec_apply_commands(old(self).model(), cmds@),
    {
        let mut i: usize = 0;
        while i < cmds.len()
            invariant
                i <= cmds@.len(),
                self.wf(),
                forall|j: int|
                    0 <= j < cmds@.len() ==> (#[trigger] cmds@[j] matches PlaybackControl::SetVolume(
                    v) ==> v <= 100),
                self.model() == spec_apply_commands(old(self).model(), cmds@.take(i as int)),
            decreases cmds@.len() - i,
        {
            self.apply_command(cmds[i]);
            proof {
                assert(cmds@.take(i as int).push(cmds@[i as int]) =~= cmds@.take(i + 1));
                lemma_apply_commands_snoc(old(self).model(), cmds@.take(i as int), cmds@[i as int]);
            }
            i = i + 1;
        }
        proof {
            assert(cmds@.take(cmds@.len() as int) =~= cmds@);
        }
    }

    /// Take one playback decision against the current local instant.
    ///
    /// While stopped nothing is touched. Otherwise the head is dequeued;
    /// a head due beyond the near-term threshold goes back to the front
    /// for a short bounded poll, and a near-term or overdue head is played
    /// after its remaining delta, with the device lazily bound and the
    /// samples scaled by the current volume at write time.
    pub fn step(&mut self, now_us: i64) -> (a: EngineAction)
        requires
            old(self).wf(),
            now_us >= 0,
        ensures
            final(self).wf(),
            old(self).model().stopped ==> (a is IdleWait && final(self).model() == old(
                self,
            ).model()),
            !old(self).model().stopped && old(self).model().queue.len() == 0 ==> (a is EmptyWait
                && final(self).model() == old(self).model()),
            !old(self).model().stopped && old(self).model().queue.len() > 0 && old(
                self,
            ).model().queue[0].play_at - now_us > NEAR_TERM_THRESHOLD_US ==> (a is RetryWait
                && final(self).model() == old(self).model()),
            !old(self).model().stopped && old(self).model().queue.len() > 0 && old(
                self,
            ).model().queue[0].play_at - now_us <= NEAR_TERM_THRESHOLD_US ==> {
                &&& a matches EngineAction::Play { wait_us, open_device, format, samples } ==> {
                    &&& wait_us == if old(self).model().queue[0].play_at > now_us {
                        old(self).model().queue[0].play_at - now_us
                    } else {
                        0
                    }
                    &&& open_device == !old(self).model().output_open
                    &&& format == old(self).model().queue[0].format
                    &&& samples@ == spec_scaled_samples(
                        old(self).model().queue[0].samples@,
                        old(self).model().volume as int,
                    )
                }
                &&& a is Play
                &&& final(self).model() == (EngineModel {
                    output_open: true,
                    queue: old(self).model().queue.skip(1),
                    ..old(self).model()
                })
            },
    {
        if self.stopped {
            return EngineAction::IdleWait;
        }
        let head = self.queue.pop_front();
        match head {
            None => EngineAction::EmptyWait,
            Some(buffer) => {
                let wait_us: u64 = if buffer.play_at > now_us {
                    let delta = buffer.play_at - now_us;
                    if delta > NEAR_TERM_THRESHOLD_US {
                        let ghost q0 = old(self).model().queue;
                        self.queue.push_front(buffer);
                        proof {
                            assert(seq![q0[0]] + q0.skip(1) =~= q0);
                        }
                        return EngineAction::RetryWait;
                    }
                    delta as u64
                } else {
                    0
                };
                let open_device = !self.output_open;
                self.output_open = true;
                let samples = scale_samples(&buffer.samples, self.volume);
                EngineAction::Play { wait_us, open_device, format: buffer.format, samples }
            },
        }
    }
}

} // verus!
