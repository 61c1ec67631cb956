//! Random draws, taken from the thread-local generator of the `rand`
//! crate. Nothing is known of a draw but its range.

use rand::Rng;
use vstd::prelude::*;

verus! {

/// Calls `rand`'s `Rng::gen_range` on a half-open range. Claimed of it:
/// the value drawn lies in the range.
#[verifier::external_body]
pub(crate) fn pick_between(low: u64, high: u64) -> (r: u64)
    requires
        low < high,
    ensures
        low <= r < high,
{
    rand::thread_rng().gen_range(low..high)
}

/// Calls `rand`'s `Rng::gen_ratio`, which is true with probability
/// `numerator / denominator`. Nothing is claimed of the outcome.
#[verifier::external_body]
pub(crate) fn chance(numerator: u32, denominator: u32) -> (hit: bool)
    requires
        0 < denominator,
        numerator <= denominator,
{
    rand::thread_rng().gen_ratio(numerator, denominator)
}

/// A random index into a collection of `len` items.
pub(crate) fn pick_index(len: usize) -> (i: usize)
    requires
        0 < len,
    ensures
        i < len,
{
    pick_between(0, len as u64) as usize
}

} // verus!
