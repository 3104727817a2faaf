//! Stream format negotiation and the decoded-buffer data model.
//!
//! On stream-start the announced format is validated: the codec must be the
//! fixed PCM identifier and the bit depth 16 or 24. Anything else is a
//! `FormatRejected`: no decoder is bound and the stream's chunks are
//! silently dropped, while the connection stays alive for the next
//! stream-start.

use vstd::prelude::*;

verus! {

/// The codecs a stream can be bound to; only PCM is ever accepted.
#[derive(Debug, Clone, Copy, PartialEq, Eq, Structural)]
pub enum Codec {
    /// Uncompressed PCM samples.
    Pcm,
}

/// An unsupported codec or bit depth on stream-start; non-fatal, the
/// stream is ignored until the next stream-start.
#[derive(Debug, Clone, Copy, PartialEq, Eq, Structural)]
pub struct FormatRejected;

/// The audio format a stream was accepted with.
#[derive(Debug, Clone, Copy, PartialEq, Eq, Structural)]
pub struct AudioFormat {
    /// The codec the stream was bound to.
    pub codec: Codec,
    /// Frames per second.
    pub sample_rate: u32,
    /// Interleaved channels per frame.
    pub channels: u8,
    /// Bits per sample, 16 or 24.
    pub bit_depth: u8,
}

/// True when a stream-start announcement is acceptable: the codec names
/// PCM and the bit depth is 16 or 24.
pub open spec fn spec_format_supported(codec: Seq<char>, bit_depth: u8) -> bool {
    &&& codec == "pcm"@
    &&& (bit_depth == 16 || bit_depth == 24)
}

impl AudioFormat {
    /// Validate a stream-start announcement.
    ///
    /// Returns the bound format exactly when the codec is `"pcm"` and the
    /// bit depth is 16 or 24; every other announcement is rejected.
    pub fn validate(codec: &String, sample_rate: u32, channels: u8, bit_depth: u8) -> (r: Result<
        AudioFormat,
        FormatRejected,
    >)
        ensures
            r is Ok <==> spec_format_supported(codec@, bit_depth),
            r matches Ok(f) ==> f == (AudioFormat {
                codec: Codec::Pcm,
                sample_rate,
                channels,
                bit_depth,
            }),
            r is Err ==> r == Err::<AudioFormat, FormatRejected>(FormatRejected),
    {
        let pcm: String = "pcm".to_owned();
        if *codec == pcm && (bit_depth == 16 || bit_depth == 24) {
            Ok(AudioFormat { codec: Codec::Pcm, sample_rate, channels, bit_depth })
        } else {
            Err(FormatRejected)
        }
    }
}

/// One decoded, ready-to-play buffer: created by decode, owned by the
/// queue until dequeued, then consumed by the device write or discarded on
/// stop.
pub struct AudioBuffer {
    /// Origin timestamp, microseconds in the sender's clock domain.
    pub timestamp: i64,
    /// The local monotonic instant, in microseconds, this buffer is
    /// scheduled for output; fixed at enqueue time and never recomputed.
    pub play_at: i64,
    /// Decoded samples, interleaved by channel.
    pub samples: Vec<i32>,
    /// The stream format the buffer was decoded under.
    pub format: AudioFormat,
}

} // verus!
