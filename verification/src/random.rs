//! The random draw that launches a ball.
//!
//! The numbers come from the `rand` crate's thread-local generator. Nothing
//! is known of them beyond the bounds that `rand` documents, so whatever is
//! built on a draw is proved for every draw.

use vstd::prelude::*;
use rand::distributions::{IndependentSample, Range};

verus! {

/// The handle of `rand`'s thread-local generator. Opaque here.
#[verifier::external_type_specification]
#[verifier::external_body]
pub struct ExThreadRng(rand::ThreadRng);

/// `rand::thread_rng`: the calling thread's generator. It takes nothing and
/// nothing is claimed of it. It panics where the system has no entropy to
/// seed the generator with.
pub assume_specification[ rand::thread_rng ]() -> (rng: rand::ThreadRng)
;

/// `Range::new(low, high).ind_sample(rng)`: a number drawn from `low` up to,
/// but not counting, `high`. `Range::new` panics unless `low < high`.
#[verifier::external_body]
fn sample_between(rng: &mut rand::ThreadRng, low: u64, high: u64) -> (v: u64)
    requires
        low < high,
    ensures
        low <= v < high,
{
    Range::new(low, high).ind_sample(rng)
}

/// `rand::sample(rng, items, 1)`: a sample of one out of two items, which is
/// one of the two.
#[verifier::external_body]
fn sample_one(rng: &mut rand::ThreadRng, first: bool, second: bool) -> (v: bool)
    ensures
        v == first || v == second,
{
    rand::sample(rng, [first, second], 1)[0]
}

/// What chance decides of a launch: the angle off the horizontal, in
/// millionths of a radian, and the two directions.
#[derive(Clone, Copy, Debug, PartialEq, Eq, Structural)]
pub struct Launch {
    pub angle: u32,
    pub upward: bool,
    pub leftward: bool,
}

impl Launch {
    /// Draws a launch: an angle from zero to `max_angle`, both counted, and
    /// a direction along each axis.
    pub fn draw(max_angle: u32) -> (launch: Launch)
        ensures
            launch.angle <= max_angle,
    {
        let mut rng = rand::thread_rng();
        let angle: u64 = sample_between(&mut rng, 0, max_angle as u64 + 1);
        let upward: bool = sample_one(&mut rng, true, false);
        let leftward: bool = sample_one(&mut rng, true, false);
        Launch { angle: angle as u32, upward, leftward }
    }
}

} // verus!
