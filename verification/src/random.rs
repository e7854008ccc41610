//! Discrete random draws, taken from a generator that the caller owns.

use vstd::prelude::*;
use rand::Rng;
use rand::rngs::StdRng;

verus! {

/// The generator of the `rand` crate that all draws are taken from. It is
/// carried through as an opaque value.
#[verifier::external_type_specification]
#[verifier::external_body]
pub struct ExStdRng(StdRng);

/// `Rng::gen_range` on the half-open range `low..high`. The call panics on an
/// empty range, which the precondition rules out; the value it returns lies
/// in the range. Which value comes back is up to the generator.
#[verifier::external_body]
pub(crate) fn random_between(rng: &mut StdRng, low: usize, high: usize) -> (r: usize)
    requires
        low < high,
    ensures
        low <= r < high,
{
    rng.gen_range(low..high)
}

/// `Rng::gen_ratio`: true with a chance of `numerator` in `denominator`. The
/// call panics on a zero denominator and on a ratio above one, which the
/// precondition rules out. A ratio of one always gives true and a ratio of
/// zero always gives false; nothing else is known of the outcome.
#[verifier::external_body]
pub(crate) fn random_chance(rng: &mut StdRng, numerator: u32, denominator: u32) -> (r: bool)
    requires
        0 < denominator,
        numerator <= denominator,
    ensures
        numerator == denominator ==> r,
        numerator == 0 ==> !r,
{
    rng.gen_ratio(numerator, denominator)
}

} // verus!
