//! Random draws. These are the only places where the library meets chance;
//! their contracts are taken on trust from the `rand` crate.

use vstd::prelude::*;
use rand::seq::SliceRandom;
use rand::Rng;
use crate::progression::UpgradeChoice;

verus! {

/// Calls `rand::Rng::random_ratio` on the thread's generator: a coin that comes
/// up `true` in `numerator` of `denominator` throws. The crate documents that it
/// is always `false` for a numerator of 0 and always `true` where numerator and
/// denominator are equal, and that it panics on a zero denominator or a
/// numerator above the denominator, which the precondition leaves out.
#[verifier::external_body]
pub(crate) fn roll_ratio(numerator: u32, denominator: u32) -> (hit: bool)
    requires
        denominator > 0,
        numerator <= denominator,
    ensures
        numerator == 0 ==> !hit,
        numerator == denominator ==> hit,
{
    rand::rng().random_ratio(numerator, denominator)
}

/// Calls `rand::Rng::random_range` on the thread's generator with the half-open
/// range `low..high`: some value of that range. The crate panics on an empty
/// range, which the precondition leaves out.
#[verifier::external_body]
pub(crate) fn roll_range(low: i64, high: i64) -> (value: i64)
    requires
        low < high,
    ensures
        low <= value < high,
{
    rand::rng().random_range(low..high)
}

/// Calls `rand::seq::SliceRandom::shuffle` on the thread's generator: the
/// choices in a drawn order. The crate shuffles in place by swapping, so the
/// same choices are there afterwards, each as often as before.
#[verifier::external_body]
pub(crate) fn shuffle_choices(choices: &mut Vec<UpgradeChoice>)
    ensures
        final(choices)@.to_multiset() == old(choices)@.to_multiset(),
{
    choices.shuffle(&mut rand::rng());
}

} // verus!
