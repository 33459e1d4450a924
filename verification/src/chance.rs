//! The game's source of random numbers.

use rand::Rng;
use vstd::prelude::*;

verus! {

/// Draws from `low..high` with `rand::Rng::gen_range`, on the generator
/// that `rand::thread_rng` hands out. Assumed of the outside call: it
/// returns for every range that is not empty, and what it returns lies in
/// the range. Which number comes is left open.
#[verifier::external_body]
pub(crate) fn pick_below(low: u16, high: u16) -> (r: u16)
    requires
        low < high,
    ensures
        low <= r < high,
{
    rand::thread_rng().gen_range(low..high)
}

/// Draws from `low..=high` with `rand::Rng::gen_range`, on the generator
/// that `rand::thread_rng` hands out. Assumed of the outside call: it
/// returns for every range that is not empty, and what it returns lies in
/// the range. Which number comes is left open.
#[verifier::external_body]
pub(crate) fn pick_through(low: u32, high: u32) -> (r: u32)
    requires
        low <= high,
    ensures
        low <= r <= high,
{
    rand::thread_rng().gen_range(low..=high)
}

} // verus!
