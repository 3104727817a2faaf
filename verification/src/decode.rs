//! PCM decoding: raw chunk bytes into owned 32-bit samples.
//!
//! A decoder is bound per stream with a bit depth of 16 or 24 and a byte
//! order that is locked on the first chunk and never re-probed. Each group
//! of 2 or 3 bytes is one sample; its bits are placed in the uppermost bytes
//! of an `i32`, so a 16-bit sample is widened by a left shift of 16 and a
//! 24-bit sample by a left shift of 8, preserving sign and relative
//! amplitude.

use vstd::prelude::*;
use vstd::arithmetic::div_mod::lemma_fundamental_div_mod;
use vstd::arithmetic::mul::lemma_mul_inequality;
use vstd::arithmetic::mul::lemma_mul_is_commutative;
use vstd::arithmetic::mul::lemma_mul_is_distributive_add_other_way;

verus! {

/// PCM byte order within one sample.
#[derive(Debug, Clone, Copy, PartialEq, Eq, Structural)]
pub enum PcmEndian {
    /// Least significant byte first.
    Little,
    /// Most significant byte first.
    Big,
}

/// A corrupt or unusable chunk; the chunk is dropped, playback continues.
#[derive(Debug, Clone, Copy, PartialEq, Eq, Structural)]
pub enum DecodeError {
    /// The decoder was bound with a bit depth other than 16 or 24.
    UnsupportedBitDepth,
    /// The chunk carries no payload bytes.
    EmptyData,
    /// The payload length is not a whole number of samples.
    TruncatedData,
}

/// Number of bytes one sample occupies at a given bit depth, or 0 when the
/// bit depth is unsupported.
pub open spec fn spec_bytes_per_sample(bit_depth: u8) -> int {
    if bit_depth == 16 {
        2
    } else if bit_depth == 24 {
        3
    } else {
        0
    }
}

/// A 16-bit sample from its two bytes in the given order, widened into the
/// top two bytes of an `i32`.
pub open spec fn spec_sample_16(endian: PcmEndian, b0: u8, b1: u8) -> i32 {
    match endian {
        PcmEndian::Little => (((b0 as u32) << 16) | ((b1 as u32) << 24)) as i32,
        PcmEndian::Big => (((b1 as u32) << 16) | ((b0 as u32) << 24)) as i32,
    }
}

/// A 24-bit sample from its three bytes in the given order, widened into the
/// top three bytes of an `i32`.
pub open spec fn spec_sample_24(endian: PcmEndian, b0: u8, b1: u8, b2: u8) -> i32 {
    match endian {
        PcmEndian::Little => (((b0 as u32) << 8) | ((b1 as u32) << 16) | ((b2 as u32) << 24)) as i32,
        PcmEndian::Big => (((b2 as u32) << 8) | ((b1 as u32) << 16) | ((b0 as u32) << 24)) as i32,
    }
}

/// Sample `i` of a payload, at the given bit depth and byte order.
pub open spec fn spec_sample_at(bit_depth: u8, endian: PcmEndian, data: Seq<u8>, i: int) -> i32 {
    if bit_depth == 16 {
        spec_sample_16(endian, data[2 * i], data[2 * i + 1])
    } else {
        spec_sample_24(endian, data[3 * i], data[3 * i + 1], data[3 * i + 2])
    }
}

/// The whole decoded sample sequence of a payload.
pub open spec fn spec_decoded(bit_depth: u8, endian: PcmEndian, data: Seq<u8>) -> Seq<i32> {
    Seq::new(
        (data.len() as int / spec_bytes_per_sample(bit_depth)) as nat,
        |i: int| spec_sample_at(bit_depth, endian, data, i),
    )
}

/// True when a payload is decodable at the given bit depth: a supported
/// depth, a non-empty payload, and a whole number of samples.
pub open spec fn spec_decodable(bit_depth: u8, data: Seq<u8>) -> bool {
    &&& (bit_depth == 16 || bit_depth == 24)
    &&& data.len() > 0
    &&& data.len() as int % spec_bytes_per_sample(bit_depth) == 0
}

/// Bytes per sample for the supported PCM bit depths, 0 otherwise.
pub fn bytes_per_sample(bit_depth: u8) -> (r: usize)
    ensures
        r == spec_bytes_per_sample(bit_depth),
{
    if bit_depth == 16 {
        2
    } else if bit_depth == 24 {
        3
    } else {
        0
    }
}

/// A PCM decode context, parameterized by bit depth and a byte order that is
/// fixed for the life of the binding.
#[derive(Debug, Clone, Copy, PartialEq, Eq, Structural)]
pub struct PcmDecoder {
    /// Bits per sample; decoding succeeds only for 16 or 24.
    pub bit_depth: u8,
    /// Byte order of every sample of the stream.
    pub endian: PcmEndian,
}

impl PcmDecoder {
    /// A decoder with the given bit depth and an explicitly chosen byte
    /// order.
    pub fn with_endian(bit_depth: u8, endian: PcmEndian) -> (r: PcmDecoder)
        ensures
            r.bit_depth == bit_depth,
            r.endian == endian,
    {
        PcmDecoder { bit_depth, endian }
    }

    /// Decode a chunk payload into samples.
    ///
    /// Succeeds exactly on decodable payloads (supported bit depth,
    /// non-empty, whole samples) and then returns precisely the widened
    /// samples in payload order. Each failure names its cause; the checks
    /// run in the order bit depth, emptiness, truncation.
    pub fn decode(&self, data: &[u8]) -> (r: Result<Vec<i32>, DecodeError>)
        ensures
            r is Ok <==> spec_decodable(self.bit_depth, data@),
            r matches Ok(samples) ==> samples@ == spec_decoded(self.bit_depth, self.endian, data@),
            !(self.bit_depth == 16 || self.bit_depth == 24) ==> r == Err::<Vec<i32>, DecodeError>(
                DecodeError::UnsupportedBitDepth,
            ),
            (self.bit_depth == 16 || self.bit_depth == 24) && data@.len() == 0 ==> r == Err::<
                Vec<i32>,
                DecodeError,
            >(DecodeError::EmptyData),
            (self.bit_depth == 16 || self.bit_depth == 24) && data@.len() > 0 && data@.len() as int
                % spec_bytes_per_sample(self.bit_depth) != 0 ==> r == Err::<Vec<i32>, DecodeError>(
                DecodeError::TruncatedData,
            ),
    {
        let bps = bytes_per_sample(self.bit_depth);
        if bps == 0 {
            return Err(DecodeError::UnsupportedBitDepth);
        }
        if data.len() == 0 {
            return Err(DecodeError::EmptyData);
        }
        if data.len() % bps != 0 {
            return Err(DecodeError::TruncatedData);
        }
        let count = data.len() / bps;
        proof {
            lemma_fundamental_div_mod(data@.len() as int, bps as int);
        }
        let mut samples: Vec<i32> = Vec::new();
        let mut i: usize = 0;
        let mut idx: usize = 0;
        while i < count
            invariant
                bps == spec_bytes_per_sample(self.bit_depth),
                bps == 2 || bps == 3,
                count == data@.len() as int / bps as int,
                data@.len() == bps * count,
                i <= count,
                idx == i * bps,
                samples@.len() == i,
                forall|j: int|
                    0 <= j < i ==> samples@[j] == spec_sample_at(
                        self.bit_depth,
                        self.endian,
                        data@,
                        j,
                    ),
            decreases count - i,
        {
            proof {
                assert(idx + bps <= data@.len()) by {
                    lemma_mul_inequality(i as int + 1, count as int, bps as int);
                    lemma_mul_is_commutative(count as int, bps as int);
                    lemma_mul_is_distributive_add_other_way(bps as int, i as int, 1);
                }
            }
            let sample: i32 = if bps == 2 {
                let b0 = data[idx];
                let b1 = data[idx + 1];
                match self.endian {
                    PcmEndian::Little => #[verifier::truncate] ((((b0 as u32) << 16) | ((b1 as u32)
                        << 24)) as i32),
                    PcmEndian::Big => #[verifier::truncate] ((((b1 as u32) << 16) | ((b0 as u32)
                        << 24)) as i32),
                }
            } else {
                let b0 = data[idx];
                let b1 = data[idx + 1];
                let b2 = data[idx + 2];
                match self.endian {
                    PcmEndian::Little => #[verifier::truncate] ((((b0 as u32) << 8) | ((b1 as u32)
                        << 16) | ((b2 as u32) << 24)) as i32),
                    PcmEndian::Big => #[verifier::truncate] ((((b2 as u32) << 8) | ((b1 as u32)
                        << 16) | ((b0 as u32) << 24)) as i32),
                }
            };
            samples.push(sample);
            i = i + 1;
            idx = idx + bps;
        }
        proof {
            assert(samples@ =~= spec_decoded(self.bit_depth, self.endian, data@));
        }
        Ok(samples)
    }
}

} // verus!
