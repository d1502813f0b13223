//! The one source of chance.

use vstd::prelude::*;
use rand::Rng;

verus! {

/// Draws a number with `rand::Rng::gen_range` on the generator that
/// `rand::thread_rng` keeps for the thread.
///
/// Believed, not proved: the number drawn is at least `low` and less than
/// `high`. Which number it is differs from call to call, so nothing more is
/// said of it. `gen_range` panics when `low >= high`; that is left out. The
/// generator itself panics where the system gives it no seed.
#[verifier::external_body]
pub(crate) fn random_in_range(low: u8, high: u8) -> (drawn: u8)
    requires
        low < high,
    ensures
        low <= drawn < high,
{
    rand::thread_rng().gen_range(low, high)
}

} // verus!
