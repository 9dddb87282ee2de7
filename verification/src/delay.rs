//! The randomized inter-write delay of the central role's write loop:
//! after each write, successful or not, the loop sleeps a duration drawn
//! uniformly at random from `[0, WRITE_DELAY_BOUND_MS)` milliseconds.

use vstd::prelude::*;

use crate::protocol::WRITE_DELAY_BOUND_MS;

verus! {

/// The standard random number generator of the `rand` crate, carried
/// opaquely through the write loop.
#[verifier::external_type_specification]
#[verifier::external_body]
pub struct ExStdRng(rand::rngs::StdRng);

/// Relies on `rand::RngExt::random_range` over `0..bound`: the sample lies
/// in the half-open range, so strictly below `bound`; the range is
/// non-empty since `bound` is positive, so the call does not panic.
#[verifier::external_body]
fn draw_below(rng: &mut rand::rngs::StdRng, bound: u64) -> (r: u64)
    requires
        bound >= 1,
    ensures
        r < bound,
{
    rand::RngExt::random_range(rng, 0..bound)
}

/// Draws the delay slept after one write: strictly below the fixed bound.
pub fn random_write_delay_ms(rng: &mut rand::rngs::StdRng) -> (d: u64)
    ensures
        d < WRITE_DELAY_BOUND_MS,
{
    draw_below(rng, WRITE_DELAY_BOUND_MS)
}

} // verus!
