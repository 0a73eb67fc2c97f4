//! The randomness source: the engine's draws, each a uniform integer from
//! a fixed closed range, taken from a thread-local generator of the `rand`
//! crate behind one trusted wrapper.

use vstd::prelude::*;

verus! {

#[verifier::external_type_specification]
#[verifier::external_body]
pub struct ExThreadRng(rand::rngs::ThreadRng);

/// Relies on rand's `Rng::gen_range` over an inclusive `i32` range: the
/// draw lies within the bounds. It panics only on an empty range, which
/// the precondition rules out.
#[verifier::external_body]
fn gen_range_i32(rng: &mut rand::rngs::ThreadRng, lo: i32, hi: i32) -> (r: i32)
    requires
        lo <= hi,
    ensures
        lo <= r <= hi,
{
    rand::Rng::gen_range(rng, lo..=hi)
}

/// The land market's price draw: 17 to 26 bushels per acre.
pub fn roll_land_price(rng: &mut rand::rngs::ThreadRng) -> (r: i32)
    ensures
        17 <= r <= 26,
{
    gen_range_i32(rng, 17, 26)
}

/// The harvest draw: 1 to 5 bushels returned per planted acre.
pub fn roll_harvest_yield(rng: &mut rand::rngs::ThreadRng) -> (r: i32)
    ensures
        1 <= r <= 5,
{
    gen_range_i32(rng, 1, 5)
}

/// The rats' draw: the store is divided by 2 to 6 to size their share.
pub fn roll_rats_fraction(rng: &mut rand::rngs::ThreadRng) -> (r: i32)
    ensures
        2 <= r <= 6,
{
    gen_range_i32(rng, 2, 6)
}

/// The base birth-rate draw: 2 to 5.
pub fn roll_birth_fraction(rng: &mut rand::rngs::ThreadRng) -> (r: i32)
    ensures
        2 <= r <= 5,
{
    gen_range_i32(rng, 2, 5)
}

/// The plague trial: true with probability fifteen percent. Nothing more
/// can be promised of a random draw than that it is a boolean.
pub fn roll_for_plague(rng: &mut rand::rngs::ThreadRng) -> bool {
    let r = gen_range_i32(rng, 1, 100);
    r <= 15
}

} // verus!
