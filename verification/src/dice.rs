//! The dice of the face: a seeded pseudo-random generator and the chances
//! that are rolled against it.
//!
//! One roll is a 32-bit word `r`, read as the fraction `r / 2^32` of the
//! unit interval. A chance of `p` percent hits when that fraction is below
//! `p / 100`.

use vstd::prelude::*;

verus! {

/// `fastrand::Rng`, the generator behind the dice. Nothing of what is
/// inside a generator is visible here.
#[verifier::external_type_specification]
#[verifier::external_body]
pub struct ExRng(fastrand::Rng);

/// The number of values that a roll can take.
pub const ROLL_SPAN: u64 = 0x1_0000_0000;

/// `fastrand::Rng::with_seed`: a generator whose sequence starts from
/// `seed`. Nothing is claimed of the generator.
pub assume_specification[ fastrand::Rng::with_seed ](seed: u64) -> (rng: fastrand::Rng);

/// `fastrand::Rng::u32` over the full range: the next word of the
/// generator's sequence. Nothing is claimed of the word.
#[verifier::external_body]
pub(crate) fn next_roll(rng: &mut fastrand::Rng) -> (roll: u32) {
    rng.u32(..)
}

/// Whether `roll` hits a chance of `percent` in a hundred.
pub open spec fn roll_hits(roll: u32, percent: nat) -> bool {
    roll * 100 < percent * ROLL_SPAN
}

/// Decides whether `roll` hits a chance of `percent` in a hundred.
pub fn hits(roll: u32, percent: u8) -> (hit: bool)
    ensures
        hit == roll_hits(roll, percent as nat),
{
    (roll as u64) * 100 < (percent as u64) * ROLL_SPAN
}

} // verus!
