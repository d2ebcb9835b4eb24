//! Frame identities carried in the codec's timestamp field, and the bounded
//! waits handed to the codec.
//!
//! The codec has no field for a caller's tag, so a frame's identity travels
//! in the presentation timestamp: written as an unsigned 64-bit value when a
//! buffer is queued, read back as a signed 64-bit value when the decoded
//! buffer is dequeued. This module is the only place that knows the encoding.

use vstd::prelude::*;

verus! {

/// Status with which the codec reports that no buffer is available yet.
pub const TRY_AGAIN_LATER: isize = -1;

/// The 64 bits of a signed timestamp, read as an unsigned number.
pub open spec fn timestamp_bits(presentation_time_us: i64) -> int {
    if presentation_time_us >= 0 {
        presentation_time_us as int
    } else {
        presentation_time_us + 0x1_0000_0000_0000_0000
    }
}

/// The timestamp under which a frame identity is queued.
pub open spec fn timestamp_of_identity(frame_index: usize) -> u64 {
    frame_index as u64
}

/// The frame identity that the bits of a timestamp stand for: the bits
/// themselves where they fit an identity, else as many of the low bits as an
/// identity has.
pub open spec fn identity_of_bits(bits: int) -> usize {
    if bits <= usize::MAX {
        bits as usize
    } else {
        (bits % (usize::MAX + 1)) as usize
    }
}

/// The frame identity that a dequeued timestamp stands for.
pub open spec fn identity_of_timestamp(presentation_time_us: i64) -> usize {
    identity_of_bits(timestamp_bits(presentation_time_us))
}

/// A codec keeps a timestamp when the signed value it hands out has the bits
/// of the unsigned value it was given.
pub open spec fn carries(presentation_time_us: i64, queued: u64) -> bool {
    timestamp_bits(presentation_time_us) == queued
}

/// The wait handed to the codec for a timeout given in microseconds: the
/// timeout itself, or the longest wait the codec can be asked for. It is
/// never negative, so the codec is never asked to wait without limit.
pub open spec fn wait_of_timeout(timeout_micros: u128) -> i64 {
    if timeout_micros <= i64::MAX {
        timeout_micros as i64
    } else {
        i64::MAX
    }
}

/// Encodes a frame identity as the timestamp to queue it under.
pub fn encode_identity(frame_index: usize) -> (presentation_time_us: u64)
    ensures
        presentation_time_us == timestamp_of_identity(frame_index),
{
    frame_index as u64
}

/// Decodes the frame identity from the timestamp of a dequeued buffer.
pub fn decode_identity(presentation_time_us: i64) -> (frame_index: usize)
    ensures
        frame_index == identity_of_timestamp(presentation_time_us),
{
    let bits: u64 = #[verifier::truncate] (presentation_time_us as u64);
    assert(bits == timestamp_bits(presentation_time_us)) by (bit_vector)
        requires
            bits == presentation_time_us as u64,
    ;
    if bits <= usize::MAX as u64 {
        bits as usize
    } else {
        assert(usize::MAX == 0xffff_ffff);
        (bits % 0x1_0000_0000) as usize
    }
}

/// Converts a timeout in microseconds to the wait handed to the codec.
pub fn bounded_wait(timeout_micros: u128) -> (timeout_us: i64)
    ensures
        timeout_us == wait_of_timeout(timeout_micros),
        0 <= timeout_us <= timeout_micros,
{
    if timeout_micros <= i64::MAX as u128 {
        timeout_micros as i64
    } else {
        i64::MAX
    }
}

/// An identity survives the trip through a codec that keeps timestamps.
pub proof fn lemma_identity_round_trip(frame_index: usize, presentation_time_us: i64)
    requires
        carries(presentation_time_us, timestamp_of_identity(frame_index)),
    ensures
        identity_of_timestamp(presentation_time_us) == frame_index,
{
}

} // verus!
