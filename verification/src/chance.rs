//! The game's source of randomness.
//!
//! Both functions draw from the generator that `rand` keeps for the calling
//! thread. Their contracts are taken on trust from that crate; everything the
//! game decides from a draw is decided in verified code that receives the draw
//! as an argument.

use rand::Rng;
use vstd::prelude::*;

verus! {

/// Draws an integer from the half-open range `low..high`.
///
/// Calls `rand::Rng::gen_range` on `rand::thread_rng()`. The call panics on an
/// empty range, which the precondition rules out. Trusted: the value returned
/// lies in the range. Which value it is depends on chance.
#[verifier::external_body]
pub(crate) fn random_range(low: i32, high: i32) -> (r: i32)
    requires
        low < high,
    ensures
        low <= r < high,
{
    rand::thread_rng().gen_range(low..high)
}

/// Draws a boolean that is true with probability `numerator / denominator`.
///
/// Calls `rand::Rng::gen_ratio` on `rand::thread_rng()`. The call panics on a
/// zero denominator and on a ratio above one, which the precondition rules
/// out. Trusted: a ratio of one always gives true and a ratio of zero always
/// gives false. Nothing else is known of the outcome.
#[verifier::external_body]
pub(crate) fn random_ratio(numerator: u32, denominator: u32) -> (hit: bool)
    requires
        0 < denominator,
        numerator <= denominator,
    ensures
        numerator == denominator ==> hit,
        numerator == 0 ==> !hit,
{
    rand::thread_rng().gen_ratio(numerator, denominator)
}

} // verus!
