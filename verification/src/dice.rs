//! The die: one draw below an upper limit.

use rand::Rng;
use vstd::prelude::*;

verus! {

/// The lowest face of the die. Rolling it ends the game.
pub const LOWEST_ROLL: i64 = 1;

/// Whether `roll` is a possible result of one draw below `upper_limit`.
///
/// Above 1 the draw lies in `[1, upper_limit)`. At 1 and below there is
/// nothing left to draw from, and the draw is 1.
pub open spec fn is_roll(upper_limit: int, roll: int) -> bool {
    if upper_limit <= 1 {
        roll == 1
    } else {
        1 <= roll < upper_limit
    }
}

/// Calls `rand::thread_rng().gen_range(low..high)`.
///
/// Trusted: for `low < high` the generator returns a value of the half-open
/// range `[low, high)`. It panics on an empty range, which `requires` leaves
/// out. Nothing is claimed about which value of the range comes back.
#[verifier::external_body]
fn uniform_in(low: i64, high: i64) -> (drawn: i64)
    requires
        low < high,
    ensures
        low <= drawn < high,
{
    rand::thread_rng().gen_range(low..high)
}

/// Draws a random number from 1 up to, but not including, `upper_limit`.
///
/// An upper limit of 1 or less leaves nothing to draw from: the roll is then 1.
pub fn generate_roll(upper_limit: i64) -> (roll: i64)
    ensures
        is_roll(upper_limit as int, roll as int),
        upper_limit <= 1 ==> roll == 1,
        upper_limit > 1 ==> 1 <= roll < upper_limit,
{
    if upper_limit <= LOWEST_ROLL {
        return LOWEST_ROLL;
    }
    uniform_in(LOWEST_ROLL, upper_limit)
}

} // verus!
