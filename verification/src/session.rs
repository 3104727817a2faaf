//! The inbound-path decisions of one playback session: format negotiation
//! on stream-start, decoder binding with the byte order locked on the
//! first chunk, clock-sync updates, and turning each audio chunk into a
//! scheduled, decoded buffer for the engine's queue.
//!
//! The session is the receive path's state machine; the caller performs
//! network reads and writes, hands inbound values in, and applies the
//! returned values — a control command for the engine, or a buffer to
//! enqueue. Decode and format faults are contained here: a rejected
//! stream-start leaves the stream unbound so its chunks drop silently,
//! and a corrupt chunk drops alone, never interrupting the message path.

use vstd::prelude::*;
use crate::clock::ClockSync;
use crate::clock::spec_round_trip_offset;
use crate::decode::{PcmDecoder, PcmEndian, spec_decodable, spec_decoded};
use crate::engine::PlaybackControl;
use crate::format::{AudioBuffer, AudioFormat, Codec, FormatRejected, spec_format_supported};
use crate::schedule::{Scheduler, chunk_duration_us, plan_step, spec_chunk_duration_us};
use vstd::arithmetic::div_mod::lemma_div_basics_4;
use vstd::arithmetic::div_mod::lemma_div_basics_5;

verus! {

/// The receive path's state: the bound stream format, the decode context
/// bound on the first chunk, the clock-offset estimate, and the fallback
/// scheduler.
pub struct Session {
    /// The format accepted at the last stream-start, `None` while no
    /// stream is bound; chunks without a bound format are dropped.
    pub format: Option<AudioFormat>,
    /// The decode context, bound with the stream's bit depth and a byte
    /// order locked little-endian at the first chunk, never re-probed.
    pub decoder: Option<PcmDecoder>,
    /// The clock-offset estimate fed by time-sync replies.
    pub clock: ClockSync,
    /// The fallback scheduler used while no clock translation exists.
    pub scheduler: Scheduler,
}

impl Session {
    /// A session is well formed when its scheduler is, any bound format
    /// is a validated PCM format, and any bound decoder matches the bound
    /// format with the fixed little-endian byte order.
    pub open spec fn wf(&self) -> bool {
        &&& self.scheduler.wf()
        &&& (self.format matches Some(f) ==> f.codec == Codec::Pcm && f.channels >= 1
            && f.sample_rate >= 1 && (f.bit_depth == 16 || f.bit_depth == 24))
        &&& (self.decoder matches Some(d) ==> (self.format matches Some(f) && d == (PcmDecoder {
            bit_depth: f.bit_depth,
            endian: PcmEndian::Little,
        })))
    }

    /// A fresh session: nothing bound, no clock estimate, no fallback
    /// anchor, and the given buffer latency in milliseconds.
    pub fn new(buffer_latency_ms: u32) -> (r: Session)
        requires
            buffer_latency_ms <= 3_600_000,
        ensures
            r.wf(),
            r.format is None,
            r.decoder is None,
            r.clock.spec_offset() is None,
            r.scheduler.spec_cursor() is None,
            r.scheduler.spec_latency() == buffer_latency_ms * 1000,
    {
        Session {
            format: None,
            decoder: None,
            clock: ClockSync::new(),
            scheduler: Scheduler::new(buffer_latency_ms),
        }
    }

    /// Negotiate a stream-start announcement.
    ///
    /// Acceptance — the codec is `"pcm"` and the bit depth 16 or 24 —
    /// binds the announced format, discards any previous decode context so
    /// a fresh one binds at the first chunk, and resets the scheduling
    /// anchor; the caller must also stop and resume the engine, discarding
    /// the old stream's queue. Rejection unbinds the stream entirely so
    /// its chunks drop silently, and the session stays alive for the next
    /// stream-start. The clock estimate survives either way.
    pub fn handle_stream_start(
        &mut self,
        codec: &String,
        sample_rate: u32,
        channels: u8,
        bit_depth: u8,
    ) -> (r: Result<AudioFormat, FormatRejected>)
        requires
            old(self).wf(),
            sample_rate >= 1,
            channels >= 1,
        ensures
            final(self).wf(),
            r is Ok <==> spec_format_supported(codec@, bit_depth),
            r matches Ok(f) ==> {
                &&& f == (AudioFormat { codec: Codec::Pcm, sample_rate, channels, bit_depth })
                &&& final(self).format == Some(f)
                &&& final(self).scheduler.spec_cursor() is None
            },
            r is Err ==> {
                &&& final(self).format is None
                &&& final(self).scheduler == old(self).scheduler
            },
            final(self).decoder is None,
            final(self).clock == old(self).clock,
            final(self).scheduler.spec_latency() == old(self).scheduler.spec_latency(),
    {
        match AudioFormat::validate(codec, sample_rate, channels, bit_depth) {
            Ok(f) => {
                self.format = Some(f);
                self.decoder = None;
                self.scheduler.reset();
                Ok(f)
            },
            Err(e) => {
                self.format = None;
                self.decoder = None;
                Err(e)
            },
        }
    }

    /// A stream-end: the caller stops the engine; the session only drops
    /// the scheduling anchor. The bound format and decoder survive.
    pub fn handle_stream_end(&mut self)
        requires
            old(self).wf(),
        ensures
            final(self).wf(),
            final(self).format == old(self).format,
            final(self).decoder == old(self).decoder,
            final(self).clock == old(self).clock,
            final(self).scheduler.spec_cursor() is None,
            final(self).scheduler.spec_latency() == old(self).scheduler.spec_latency(),
    {
        self.scheduler.reset();
    }

    /// A stream-clear: the caller stops the engine; the session unbinds
    /// format and decoder and drops the scheduling anchor.
    pub fn handle_stream_clear(&mut self)
        requires
            old(self).wf(),
        ensures
            final(self).wf(),
            final(self).format is None,
            final(self).decoder is None,
            final(self).clock == old(self).clock,
            final(self).scheduler.spec_cursor() is None,
            final(self).scheduler.spec_latency() == old(self).scheduler.spec_latency(),
    {
        self.format = None;
        self.decoder = None;
        self.scheduler.reset();
    }

    /// Fold a time-sync reply into the clock estimate: `client_send` and
    /// `client_recv` are local monotonic microseconds around the round
    /// trip, the server stamps in between. Nothing else changes.
    pub fn handle_time_reply(
        &mut self,
        client_send: i64,
        server_recv: i64,
        server_send: i64,
        client_recv: i64,
    )
        requires
            old(self).wf(),
            i64::MIN <= server_recv - client_send <= i64::MAX,
            i64::MIN <= server_send - client_recv <= i64::MAX,
            i64::MIN < (server_recv - client_send) + (server_send - client_recv) <= i64::MAX,
        ensures
            final(self).wf(),
            final(self).clock.spec_offset() == Some(
                spec_round_trip_offset(
                    client_send as int,
                    server_recv as int,
                    server_send as int,
                    client_recv as int,
                ) as i64,
            ),
            final(self).format == old(self).format,
            final(self).decoder == old(self).decoder,
            final(self).scheduler == old(self).scheduler,
    {
        self.clock.update(client_send, server_recv, server_send, client_recv);
    }

    /// Turn one inbound audio chunk into a scheduled, decoded buffer.
    ///
    /// Without a bound format the chunk is silently dropped. Otherwise a
    /// decode context is bound on this first chunk if none is, the payload
    /// is decoded — a decode failure drops only this chunk — and the
    /// buffer's play instant is fixed: by clock translation of the origin
    /// timestamp when available, else from the fallback cursor. The bound
    /// on the cursor leaves room for the chunk's duration; the caller
    /// checks it before the call.
    pub fn handle_chunk(&mut self, timestamp: i64, data: &[u8], now_us: i64) -> (r: Option<
        AudioBuffer,
    >)
        requires
            old(self).wf(),
            0 <= now_us <= 0x1000_0000_0000_0000,
            data@.len() <= 0xFFFF_FFFF,
            old(self).scheduler.spec_cursor() matches Some(c) ==> c <= 0x7000_0000_0000_0000,
        ensures
            final(self).wf(),
            final(self).clock == old(self).clock,
            final(self).format == old(self).format,
            final(self).scheduler.spec_latency() == old(self).scheduler.spec_latency(),
            old(self).format is None ==> {
                &&& r is None
                &&& final(self).decoder == old(self).decoder
                &&& final(self).scheduler == old(self).scheduler
            },
            old(self).format matches Some(f) ==> {
                &&& final(self).decoder == Some(
                    (PcmDecoder { bit_depth: f.bit_depth, endian: PcmEndian::Little }),
                )
                &&& !spec_decodable(f.bit_depth, data@) ==> (r is None && final(self).scheduler
                    == old(self).scheduler)
                &&& spec_decodable(f.bit_depth, data@) ==> ({
                    let samples = spec_decoded(f.bit_depth, PcmEndian::Little, data@);
                    let duration = spec_chunk_duration_us(
                        samples.len() as int,
                        f.channels as int,
                        f.sample_rate as int,
                    );
                    &&& r matches Some(b) && b.timestamp == timestamp && b.format == f
                        && b.samples@ == samples && plan_step(
                        old(self).scheduler,
                        final(self).scheduler,
                        b.play_at,
                        old(self).clock.spec_translation(timestamp),
                        duration as u64,
                        now_us,
                    )
                })
            },
    {
        let f = match self.format {
            Some(f) => f,
            None => {
                return None;
            },
        };
        if self.decoder.is_none() {
            self.decoder = Some(PcmDecoder::with_endian(f.bit_depth, PcmEndian::Little));
        }
        let dec = self.decoder.unwrap();
        let samples = match dec.decode(data) {
            Ok(s) => s,
            Err(_) => {
                return None;
            },
        };
        proof {
            lemma_div_basics_4(data@.len() as int, 2);
            lemma_div_basics_5(data@.len() as int, 2);
            lemma_div_basics_4(data@.len() as int, 3);
            lemma_div_basics_5(data@.len() as int, 3);
        }
        let duration = chunk_duration_us(samples.len(), f.channels, f.sample_rate);
        let translated = self.clock.server_to_local_micros(timestamp);
        let play_at = self.scheduler.plan(translated, duration, now_us);
        Some(AudioBuffer { timestamp, play_at, samples, format: f })
    }
}

/// Map one server command to the engine control it stands for: `"pause"`
/// and `"stop"` both stop, `"play"` resumes, `"volume"` with a value sets
/// the write-time volume; anything else is ignored.
pub fn map_server_command(command: &String, volume: Option<u8>) -> (r: Option<PlaybackControl>)
    requires
        volume matches Some(v) ==> v <= 100,
    ensures
        command@ == "pause"@ || command@ == "stop"@ ==> r == Some(PlaybackControl::Stop),
        command@ == "play"@ ==> r == Some(PlaybackControl::Resume),
        command@ == "volume"@ ==> r == (match volume {
            Some(v) => Some(PlaybackControl::SetVolume(v)),
            None => None,
        }),
        !(command@ == "pause"@ || command@ == "stop"@ || command@ == "play"@ || command@
            == "volume"@) ==> r is None,
        r matches Some(PlaybackControl::SetVolume(v)) ==> v <= 100,
    {
    proof {
        reveal_strlit("pause");
        reveal_strlit("stop");
        reveal_strlit("play");
        reveal_strlit("volume");
        assert("pause"@.len() == 5);
        assert("stop"@.len() == 4);
        assert("play"@.len() == 4);
        assert("volume"@.len() == 6);
        assert("play"@[0] == 'p');
        assert("stop"@[0] == 's');
    }
    if *command == "pause".to_owned() || *command == "stop".to_owned() {
        Some(PlaybackControl::Stop)
    } else if *command == "play".to_owned() {
        Some(PlaybackControl::Resume)
    } else if *command == "volume".to_owned() {
        match volume {
            Some(v) => Some(PlaybackControl::SetVolume(v)),
            None => None,
        }
    } else {
        None
    }
}

} // verus!
