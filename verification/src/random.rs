//! The random draws of the game, taken from the thread-local generator of
//! the `rand` crate. Nothing here is verified: each contract repeats what
//! `rand` documents of every outcome. The generator itself,
//! `rand::thread_rng`, takes no argument; it fails only on a system that
//! cannot seed it.
use vstd::prelude::*;
use rand::Rng;

verus! {

/// Calls `rand::Rng::gen_ratio` on `rand::thread_rng()`: a bool that is true
/// with `numerator` chances in `denominator`.
///
/// `gen_ratio` panics where the denominator is zero or smaller than the
/// numerator, so those are left out. It documents that the result is always
/// true where the two are equal and always false where the numerator is
/// zero; nothing more is claimed of it.
#[verifier::external_body]
pub(crate) fn ratio(numerator: u32, denominator: u32) -> (hit: bool)
    requires
        0 < denominator,
        numerator <= denominator,
    ensures
        numerator == denominator ==> hit,
        numerator == 0 ==> !hit,
{
    rand::thread_rng().gen_ratio(numerator, denominator)
}

/// Calls `rand::Rng::gen_range` on `rand::thread_rng()` with the half-open
/// range `low..high`.
///
/// `gen_range` panics on an empty range, so `low < high` is required. The
/// result lies in the range; which of its values comes is not stated.
#[verifier::external_body]
pub(crate) fn between(low: i64, high: i64) -> (drawn: i64)
    requires
        low < high,
    ensures
        low <= drawn < high,
{
    rand::thread_rng().gen_range(low..high)
}

} // verus!
