//! Identifiers for new users.

use vstd::prelude::*;
use rand::Rng;
use crate::model::{MAX_ID, MIN_ID};

verus! {

/// Draws an integer between `low` and `high`, both included, from the
/// thread's generator: `Rng::gen_range` on `rand::thread_rng()`. Nothing is
/// claimed of the draw but its bounds; an empty range, on which it panics,
/// is left out. The generator itself panics where the system cannot seed
/// it.
#[verifier::external_body]
fn draw_between(low: i32, high: i32) -> (n: i32)
    requires
        low <= high,
    ensures
        low <= n <= high,
{
    rand::thread_rng().gen_range(low..=high)
}

/// Whether `id` is one the service may assign.
pub open spec fn assignable(id: int) -> bool {
    MIN_ID <= id <= MAX_ID
}

/// Picks the identifier for a new user, at random among the assignable
/// ones. Two calls may return the same one.
pub fn fresh_id() -> (id: i32)
    ensures
        assignable(id as int),
{
    draw_between(MIN_ID, MAX_ID)
}

} // verus!
