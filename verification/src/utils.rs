//! Random sampling.

use crate::fixed::{Fixed, ONE_RAW};
use rand::Rng;
use vstd::prelude::*;

verus! {

/// Calls `rand::Rng::gen_range` on the thread-local generator with the
/// half-open range `low..high`. The generator panics on an empty range, which
/// `requires` leaves out, and samples an integer of the range, so the result
/// is at least `low` and below `high`. Nothing else is known of it.
#[verifier::external_body]
fn sample_range(low: i64, high: i64) -> (r: i64)
    requires
        low < high,
    ensures
        low <= r < high,
{
    rand::thread_rng().gen_range(low..high)
}

/// A random integer of `low..high`.
pub fn random_range(low: i64, high: i64) -> (r: i64)
    requires
        low < high,
    ensures
        low <= r < high,
{
    sample_range(low, high)
}

/// A random number that is at least zero and below one.
pub fn random() -> (r: Fixed)
    ensures
        0 <= r@ < ONE_RAW,
{
    Fixed::from_raw(sample_range(0, ONE_RAW))
}

} // verus!
