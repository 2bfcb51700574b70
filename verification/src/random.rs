//! The one place where the library asks for a random number.

use vstd::prelude::*;

verus! {

/// Calls nannou's `random_range`, which draws from the thread-local generator.
///
/// Trusted, not proved: nannou puts the two bounds in ascending order and then
/// samples the half-open range between them, so the draw is at least the
/// smaller bound and below the larger one. Equal bounds make an empty range,
/// on which the sampler panics, so they are excluded. Nothing is claimed about
/// which value of the range comes back.
#[verifier::external_body]
pub(crate) fn random_range(min: i32, max: i32) -> (draw: i32)
    requires
        min != max,
    ensures
        min < max ==> min <= draw < max,
        max < min ==> max <= draw < min,
{
    nannou::rand::random_range(min, max)
}

} // verus!
