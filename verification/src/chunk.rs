//! Wire format of one inbound audio chunk in the legacy framing: a one-byte
//! frame type, an eight-byte big-endian origin timestamp, then the payload.
//!
//! The origin timestamp is in the sender's clock domain and is not
//! comparable to local time without translation.

use vstd::prelude::*;

verus! {

/// The frame type byte that marks an audio chunk in the legacy framing.
pub const AUDIO_CHUNK_FRAME_TYPE: u8 = 4;

/// Why a binary frame was rejected as an audio chunk.
#[derive(Debug, Clone, Copy, PartialEq, Eq, Structural)]
pub enum ChunkError {
    /// The frame is shorter than the one-byte type plus eight-byte
    /// timestamp header.
    TooShort,
    /// The frame's first byte is not the audio chunk type; the byte found
    /// is carried along.
    InvalidType(u8),
}

/// The big-endian origin timestamp held in bytes 1 through 8 of a frame.
pub open spec fn spec_chunk_timestamp(frame: Seq<u8>) -> i64 {
    (((frame[1] as u64) << 56) | ((frame[2] as u64) << 48) | ((frame[3] as u64) << 40) | ((
    frame[4] as u64) << 32) | ((frame[5] as u64) << 24) | ((frame[6] as u64) << 16) | ((
    frame[7] as u64) << 8) | (frame[8] as u64)) as i64
}

/// One inbound audio chunk: the origin timestamp in the sender's clock
/// domain and the raw encoded payload.
pub struct LegacyAudioChunk {
    /// Origin timestamp, microseconds in the sender's clock domain.
    pub timestamp: i64,
    /// Raw encoded audio payload, the frame bytes after the header.
    pub data: Vec<u8>,
}

impl LegacyAudioChunk {
    /// Parse one binary frame as an audio chunk.
    ///
    /// Succeeds exactly on frames of at least nine bytes whose first byte
    /// is the audio chunk type; the timestamp is read big-endian from the
    /// next eight bytes and the rest of the frame is the payload.
    pub fn from_bytes(frame: &[u8]) -> (r: Result<LegacyAudioChunk, ChunkError>)
        ensures
            r is Ok <==> frame@.len() >= 9 && frame@[0] == AUDIO_CHUNK_FRAME_TYPE,
            r matches Ok(c) ==> {
                &&& c.timestamp == spec_chunk_timestamp(frame@)
                &&& c.data@ == frame@.skip(9)
            },
            frame@.len() < 9 ==> r == Err::<LegacyAudioChunk, ChunkError>(ChunkError::TooShort),
            frame@.len() >= 9 && frame@[0] != AUDIO_CHUNK_FRAME_TYPE ==> r == Err::<
                LegacyAudioChunk,
                ChunkError,
            >(ChunkError::InvalidType(frame@[0])),
    {
        if frame.len() < 9 {
            return Err(ChunkError::TooShort);
        }
        if frame[0] != AUDIO_CHUNK_FRAME_TYPE {
            return Err(ChunkError::InvalidType(frame[0]));
        }
        let timestamp: i64 = #[verifier::truncate] ((((frame[1] as u64) << 56) | ((frame[2] as u64)
            << 48) | ((frame[3] as u64) << 40) | ((frame[4] as u64) << 32) | ((frame[5] as u64)
            << 24) | ((frame[6] as u64) << 16) | ((frame[7] as u64) << 8) | (frame[8] as u64))
            as i64);
        let mut data: Vec<u8> = Vec::new();
        let mut i: usize = 9;
        while i < frame.len()
            invariant
                9 <= i <= frame@.len(),
                data@.len() == i - 9,
                forall|j: int| 0 <= j < data@.len() ==> data@[j] == frame@[j + 9],
            decreases frame@.len() - i,
        {
            data.push(frame[i]);
            i = i + 1;
        }
        proof {
            assert(data@ =~= frame@.skip(9));
        }
        Ok(LegacyAudioChunk { timestamp, data })
    }
}

} // verus!
