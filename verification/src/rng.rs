//! The library's single trusted boundary to the pseudo-random generator.

use rand::Rng;
use vstd::prelude::*;

verus! {

/// Relies on `rand::thread_rng` for the generator and on
/// `rand::Rng::gen_range` for the draw: the result of sampling `low..=high`
/// always lies in that range, and the call panics only on an empty range,
/// which the precondition rules out. Nothing more is assumed: the value is
/// random, so callers must be correct for every outcome.
#[verifier::external_body]
pub(crate) fn random_in_range(low: i64, high: i64) -> (value: i64)
    requires
        low <= high,
    ensures
        low <= value <= high,
{
    rand::thread_rng().gen_range(low..=high)
}

} // verus!
