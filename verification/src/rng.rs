//! The pseudo-random stream: a xoshiro256++ generator of `rand_xoshiro`, and
//! the draws that the library makes from it through `rand`.
//!
//! The generator is opaque here. Seeding and each draw are functions of
//! their arguments alone, the state of the generator among them, so each has
//! a name that contracts can speak of; nothing is claimed of which value a
//! name stands for beyond the range that `rand` documents. The draw of a
//! `usize` differs with the width of a pointer, so its names take that width
//! as an argument.

use vstd::prelude::*;
use rand::{Rng, SeedableRng};
use rand_xoshiro::Xoshiro256PlusPlus;

verus! {

#[verifier::external_type_specification]
#[verifier::external_body]
pub struct ExXoshiro256PlusPlus(Xoshiro256PlusPlus);

/// The generator that a seed gives.
pub uninterp spec fn seeded_generator(seed: u64) -> Xoshiro256PlusPlus;

/// The value that a generator in the given state draws from the half-open
/// range of `low` to `high`.
pub uninterp spec fn drawn_index(rng: Xoshiro256PlusPlus, low: i32, high: i32) -> i32;

/// The generator after it has drawn a value from the half-open range of
/// `low` to `high`.
pub uninterp spec fn stream_after_index(
    rng: Xoshiro256PlusPlus,
    low: i32,
    high: i32,
) -> Xoshiro256PlusPlus;

/// The value that a generator in the given state draws from the inclusive
/// range of `low` to `high`, on a machine whose `usize` has `bits` bits.
pub uninterp spec fn drawn_size(rng: Xoshiro256PlusPlus, low: usize, high: usize, bits: u32) -> usize;

/// The generator after it has drawn a value from the inclusive range of
/// `low` to `high`, on a machine whose `usize` has `bits` bits.
pub uninterp spec fn stream_after_size(
    rng: Xoshiro256PlusPlus,
    low: usize,
    high: usize,
    bits: u32,
) -> Xoshiro256PlusPlus;

/// The coin flip that a generator in the given state draws.
pub uninterp spec fn drawn_flag(rng: Xoshiro256PlusPlus) -> bool;

/// The generator after it has drawn a coin flip.
pub uninterp spec fn stream_after_flag(rng: Xoshiro256PlusPlus) -> Xoshiro256PlusPlus;

/// `SeedableRng::seed_from_u64` of `Xoshiro256PlusPlus`: the generator that
/// the seed gives, the same one for the same seed.
#[verifier::external_body]
pub(crate) fn seed_from_u64(seed: u64) -> (rng: Xoshiro256PlusPlus)
    ensures
        rng == seeded_generator(seed),
{
    Xoshiro256PlusPlus::seed_from_u64(seed)
}

/// `Rng::gen_range` on an inclusive range of `usize`: a value of the range,
/// which the state of the generator, the range and the width of a `usize`
/// decide, as they decide the state that the generator is left in. The call
/// panics on an empty range, which `low <= high` excludes.
#[verifier::external_body]
pub(crate) fn gen_range_inclusive(rng: &mut Xoshiro256PlusPlus, low: usize, high: usize) -> (n: usize)
    requires
        low <= high,
    ensures
        low <= n <= high,
        n == drawn_size(*old(rng), low, high, usize::BITS),
        *final(rng) == stream_after_size(*old(rng), low, high, usize::BITS),
{
    rng.gen_range(low..=high)
}

/// `Rng::gen_range` on a half-open range of `i32`: a value of the range,
/// which the state of the generator and the range decide, as they decide
/// the state that the generator is left in. The call panics on an empty
/// range, which `low < high` excludes.
#[verifier::external_body]
pub(crate) fn gen_range_exclusive(rng: &mut Xoshiro256PlusPlus, low: i32, high: i32) -> (n: i32)
    requires
        low < high,
    ensures
        low <= n < high,
        n == drawn_index(*old(rng), low, high),
        *final(rng) == stream_after_index(*old(rng), low, high),
{
    rng.gen_range(low..high)
}

/// `Rng::gen` for `bool`: one coin flip, which the state of the generator
/// decides, as it decides the state that the generator is left in.
#[verifier::external_body]
pub(crate) fn gen_bool(rng: &mut Xoshiro256PlusPlus) -> (b: bool)
    ensures
        b == drawn_flag(*old(rng)),
        *final(rng) == stream_after_flag(*old(rng)),
{
    rng.gen::<bool>()
}

} // verus!
