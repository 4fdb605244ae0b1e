//! Random draws of the tactical AI.

use vstd::prelude::*;
use rand::Rng;

verus! {

/// Draws `true` with probability `numerator / denominator` from the thread-local
/// generator of the `rand` crate (`rand::thread_rng().gen_ratio(..)`).
///
/// The draw is random; the contract states only what rand documents for every
/// outcome: a zero numerator never gives `true`, a numerator equal to the
/// denominator always does. Nothing is claimed of the draws in between.
#[verifier::external_body]
pub(crate) fn roll_ratio(numerator: u32, denominator: u32) -> (hit: bool)
    requires
        0 < denominator,
        numerator <= denominator,
    ensures
        numerator == 0 ==> !hit,
        numerator == denominator ==> hit,
{
    rand::thread_rng().gen_ratio(numerator, denominator)
}

} // verus!
