//! The random source.

use rand::Rng;
use vstd::prelude::*;

verus! {

/// Draws a number with `rand::Rng::gen_range` on the thread's generator:
/// some number from `low` up to, not including, `high`. `gen_range` panics
/// on an empty range, so the range must not be empty.
#[verifier::external_body]
pub(crate) fn draw(low: i32, high: i32) -> (value: i32)
    requires
        low < high,
    ensures
        low <= value < high,
{
    rand::thread_rng().gen_range(low..high)
}

} // verus!
