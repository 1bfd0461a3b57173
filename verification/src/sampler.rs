//! The clip sampler: where in a video a clip of fixed length may start.

use crate::random::gen_range_inclusive;
use rand::rngs::ThreadRng;
use vstd::prelude::*;

verus! {

/// The latest second at which a clip of `clip_length` seconds can start in a
/// video of `duration` seconds and still end inside it; 0 where the video is
/// no longer than the clip.
pub open spec fn max_start(duration: nat, clip_length: nat) -> nat {
    if duration >= clip_length {
        (duration - clip_length) as nat
    } else {
        0
    }
}

/// Whether `start` is a start offset the sampler may hand out.
pub open spec fn valid_start(duration: nat, clip_length: nat, start: nat) -> bool {
    start <= max_start(duration, clip_length)
}

/// Computes [`max_start`] without underflow.
pub fn max_start_seconds(duration_seconds: u64, clip_length_seconds: u64) -> (bound: u64)
    ensures
        bound == max_start(duration_seconds as nat, clip_length_seconds as nat),
{
    if duration_seconds >= clip_length_seconds {
        duration_seconds - clip_length_seconds
    } else {
        0
    }
}

/// Draws a start offset for a clip of `clip_length_seconds` seconds in a
/// video of `duration_seconds` seconds. Every outcome is a valid start; the
/// draw among the valid starts is the generator's.
pub fn sample(duration_seconds: u64, clip_length_seconds: u64, rng: &mut ThreadRng) -> (start: u64)
    ensures
        valid_start(duration_seconds as nat, clip_length_seconds as nat, start as nat),
        duration_seconds <= clip_length_seconds ==> start == 0,
        duration_seconds >= clip_length_seconds ==> start + clip_length_seconds
            <= duration_seconds,
{
    let bound = max_start_seconds(duration_seconds, clip_length_seconds);
    gen_range_inclusive(rng, 0, bound)
}

} // verus!
