//! The source of chance: the thread-local generator of the `rand` crate.

use vstd::prelude::*;
use rand::rngs::ThreadRng;
use rand::Rng;
use crate::angle::{is_launch_angle, MAX_ANGLE};

verus! {

/// `rand::rngs::ThreadRng`, the handle that `rand::thread_rng` returns.
/// Nothing is known of what it holds.
#[verifier::external_type_specification]
#[verifier::external_body]
pub struct ExThreadRng(rand::rngs::ThreadRng);

/// `Rng::gen_range` of `rand`, on `i32`: a number of the half-open range
/// from `low` to `high`. The call panics unless `low < high`, so that is
/// asked of the caller; of the number nothing is claimed but the range.
#[verifier::external_body]
pub(crate) fn gen_range(rng: &mut ThreadRng, low: i32, high: i32) -> (n: i32)
    requires
        low < high,
    ensures
        low <= n < high,
{
    rng.gen_range(low, high)
}

/// Draws a launch angle in whole degrees, any from `-MAX_ANGLE` to
/// `MAX_ANGLE`, both included.
pub fn draw_angle(rng: &mut ThreadRng) -> (deg: i32)
    ensures
        is_launch_angle(deg as int),
{
    gen_range(rng, -MAX_ANGLE, MAX_ANGLE + 1)
}

} // verus!
