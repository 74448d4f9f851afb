//! Arithmetic of cutting a clip into device-sized chunks.

use vstd::prelude::*;

verus! {

/// Number of output channels that the device offers.
pub const AUDIO_CHANNEL_MAX: usize = 8;

/// Largest sample count that the device accepts per submission.
pub const AUDIO_SAMPLE_MAX: usize = 65472;

/// Loudest volume that the device accepts for one side of a channel.
pub const AUDIO_VOLUME_MAX: i32 = 0x8000;

/// Bytes taken by one sample of 16-bit stereo PCM.
pub const BYTES_PER_SAMPLE: usize = 4;

/// Granularity, in samples, of the lengths that the device accepts.
pub const SAMPLE_ALIGNMENT: usize = 64;

/// Largest chunk capacity whose size in bytes fits every machine word.
pub const MAX_CHUNK_CAPACITY: usize = 0x3fff_ffff;

/// A chunk capacity that the streaming arithmetic can work with: at least
/// one sample, and few enough that a chunk's bytes can be counted.
pub open spec fn spec_valid_capacity(chunk_capacity: usize) -> bool {
    0 < chunk_capacity <= MAX_CHUNK_CAPACITY
}

/// The least multiple of 64 that is not below `samples`.
pub open spec fn spec_sample_align(samples: nat) -> nat {
    if samples % 64 == 0 {
        samples
    } else {
        (samples + 64 - samples % 64) as nat
    }
}

/// Bytes in one full chunk of `chunk_capacity` samples.
pub open spec fn spec_chunk_bytes(chunk_capacity: nat) -> nat {
    chunk_capacity * 4
}

/// Number of full chunks that are submitted for a clip of `len` bytes: one
/// for every offset `k * chunk` with `k * chunk + chunk < len`.
pub open spec fn spec_full_chunks(len: nat, chunk_capacity: nat) -> nat {
    if len == 0 || chunk_capacity == 0 {
        0
    } else {
        ((len - 1) / (chunk_capacity * 4) as int) as nat
    }
}

/// `len` divided by the chunk size, rounded up.
pub open spec fn spec_ceil_chunks(len: nat, chunk_capacity: nat) -> nat {
    if chunk_capacity == 0 {
        0
    } else {
        ((len + chunk_capacity * 4 - 1) / (chunk_capacity * 4) as int) as nat
    }
}

/// Sample count declared to the device for the tail of a clip of `len` bytes:
/// the samples left over after the last chunk boundary, aligned up to 64.
pub open spec fn spec_remainder_samples(len: nat, chunk_capacity: nat) -> nat {
    if chunk_capacity == 0 {
        0
    } else {
        spec_sample_align((len % (chunk_capacity * 4)) / 4)
    }
}

/// Rounds a sample count up to the next multiple of 64.
pub fn sample_align(samples: u32) -> (aligned: u32)
    requires
        samples <= 0xffff_ffc0,
    ensures
        aligned == spec_sample_align(samples as nat),
        aligned % 64 == 0,
        samples <= aligned < samples + 64,
{
    let bumped: u32 = samples + 63;
    let aligned: u32 = bumped & !63u32;
    assert(bumped & !63u32 == bumped - bumped % 64) by (bit_vector);
    aligned
}

/// Bytes in one full chunk.
pub fn chunk_bytes(chunk_capacity: usize) -> (bytes: usize)
    requires
        spec_valid_capacity(chunk_capacity),
    ensures
        bytes == spec_chunk_bytes(chunk_capacity as nat),
        0 < bytes <= 0xffff_fffc,
{
    chunk_capacity * BYTES_PER_SAMPLE
}

/// Sample count to declare for the tail of a clip of `len` bytes.
pub fn remainder_samples(len: usize, chunk_capacity: usize) -> (samples: i32)
    requires
        spec_valid_capacity(chunk_capacity),
    ensures
        samples == spec_remainder_samples(len as nat, chunk_capacity as nat),
        0 <= samples < chunk_capacity + 64,
        samples % 64 == 0,
{
    let chunk: usize = chunk_bytes(chunk_capacity);
    let tail_bytes: usize = len % chunk;
    let tail_samples: usize = tail_bytes / BYTES_PER_SAMPLE;
    assert(tail_samples < chunk_capacity) by (nonlinear_arith)
        requires
            tail_bytes < chunk,
            chunk == chunk_capacity * 4,
            tail_samples == tail_bytes / 4,
    ;
    let aligned: u32 = sample_align(tail_samples as u32);
    aligned as i32
}

} // verus!
