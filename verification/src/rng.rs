//! The boundary to the `rand` crate: the thread-local generator and the
//! uniform sampling primitives every die draws from.
//!
//! Nothing useful can be proved about a random draw beyond the range it is
//! taken from, so each sampler's contract states range membership and
//! nothing more; two draws with equal arguments may well differ.

use vstd::prelude::*;
use rand::Rng;

verus! {

#[verifier::external_type_specification]
#[verifier::external_body]
pub struct ExThreadRng(rand::rngs::ThreadRng);

/// Relies on `rand::thread_rng`: hands out the lazily initialized
/// thread-local generator. Nothing is promised of its state.
#[verifier::external_body]
pub(crate) fn fresh_rng() -> rand::rngs::ThreadRng {
    rand::thread_rng()
}

/// Relies on `rand::Rng::gen_range` over the inclusive range `min..=max`:
/// the draw is uniform over that range, so it lies within it.
#[verifier::external_body]
pub(crate) fn sample_inclusive(rng: &mut rand::rngs::ThreadRng, min: i32, max: i32) -> (r: i32)
    requires
        min <= max,
    ensures
        min <= r <= max,
{
    rng.gen_range(min..=max)
}

/// Relies on `rand::Rng::gen_range` over the half-open range `0..len`:
/// the draw is a uniform valid index, so it is below `len`.
#[verifier::external_body]
pub(crate) fn sample_index(rng: &mut rand::rngs::ThreadRng, len: usize) -> (r: usize)
    requires
        len > 0,
    ensures
        r < len,
{
    rng.gen_range(0..len)
}

} // verus!
