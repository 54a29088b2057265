//! Online estimation of the delay between an emitted audio stream and the
//! corresponding captured stream.
//!
//! Samples are fixed-point integers: the value [`FIXED_ONE`] stands for an
//! amplitude of 1.0, and every sample the estimator ingests is bounded by
//! [`SAMPLE_LIMIT`] in magnitude, which keeps all correlation sums inside
//! `i64`. The adapters that talk to audio hardware scale their native sample
//! format to this representation before calling in.

use vstd::prelude::*;

pub mod computer;
pub mod ring_buffer;
mod rng;
pub mod simulator;

verus! {

/// One signal measurement, as a fixed-point integer with [`FIXED_ONE`] as 1.0.
pub type Sample = i64;

/// The fixed-point representation of the amplitude 1.0, used for samples,
/// for the simulator's gain factor and for its noise amplitude.
pub const FIXED_ONE: i64 = 65536;

/// Largest sample magnitude the estimator accepts (16 times [`FIXED_ONE`],
/// i.e. generous headroom above the conventional [-1.0, 1.0] range).
/// Together with [`CAPACITY_LIMIT`] it keeps every correlation score within
/// `i64`: `CAPACITY_LIMIT * SAMPLE_LIMIT * SAMPLE_LIMIT < i64::MAX`.
pub const SAMPLE_LIMIT: i64 = 1048576;

/// Largest history capacity the estimator accepts; see [`SAMPLE_LIMIT`].
pub const CAPACITY_LIMIT: usize = 1048576;

/// A zero-capacity history buffer was requested; fatal at construction.
#[derive(Clone, Copy, Debug, PartialEq, Eq, Structural)]
pub struct ConfigurationError;

/// True of every sequence of samples the estimator stores.
pub open spec fn samples_bounded(s: Seq<Sample>) -> bool {
    forall|i: int| 0 <= i < s.len() ==> -SAMPLE_LIMIT <= #[trigger] s[i] <= SAMPLE_LIMIT
}

} // verus!
