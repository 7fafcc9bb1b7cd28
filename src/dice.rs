//! The die roller that every random outcome of the game goes through.

use vstd::prelude::*;
use rand::Rng;

verus! {

/// Relies on `rand::thread_rng` and `Rng::gen_range` over `1..high`: a value
/// drawn from the half-open range, which is not empty when `high > 1`.
#[verifier::external_body]
fn draw_below(high: i64) -> (r: i64)
    requires
        high > 1,
    ensures
        1 <= r < high,
{
    rand::thread_rng().gen_range(1..high)
}

/// Rolls a die with `side` faces. The upper bound is exclusive: a value in
/// `1..side` comes back, and always `1` for a one-sided die.
pub fn roll(side: i64) -> (r: i64)
    requires
        side >= 1,
    ensures
        side == 1 ==> r == 1,
        side > 1 ==> 1 <= r < side,
{
    if side == 1 {
        1
    } else {
        draw_below(side)
    }
}

/// Rolls one six-sided die of the game, a value in `1..6`.
pub fn roll_die() -> (r: u8)
    ensures
        1 <= r < 6,
{
    let d = roll(6);
    d as u8
}

} // verus!
