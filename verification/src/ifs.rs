//! The integer draws of the sigma-factor sampler: how many affine maps a
//! system has, and the signs of the reflection that closes each map.

use vstd::prelude::*;
use rand_xoshiro::Xoshiro256PlusPlus;
use crate::rng::{
    drawn_flag, drawn_size, gen_bool, gen_range_inclusive, stream_after_flag, stream_after_size,
};

verus! {

/// The least number of affine maps of a sampled system.
pub const MIN_TRANSFORMS: usize = 2;

/// The greatest number of affine maps of a sampled system.
pub const MAX_TRANSFORMS: usize = 4;

/// The diagonal entry that a coin flip stands for: 1 for heads, -1 for tails.
pub open spec fn sign_of(heads: bool) -> i8 {
    if heads {
        1i8
    } else {
        -1i8
    }
}

/// The diagonal entry that a coin flip stands for.
pub fn sign(heads: bool) -> (s: i8)
    ensures
        s == sign_of(heads),
{
    if heads {
        1
    } else {
        -1
    }
}

/// The number of affine maps that a generator in the given state draws.
pub open spec fn drawn_transform_count(rng: Xoshiro256PlusPlus) -> usize {
    drawn_size(rng, MIN_TRANSFORMS, MAX_TRANSFORMS, usize::BITS)
}

/// The generator after it has drawn the number of affine maps.
pub open spec fn stream_after_transform_count(rng: Xoshiro256PlusPlus) -> Xoshiro256PlusPlus {
    stream_after_size(rng, MIN_TRANSFORMS, MAX_TRANSFORMS, usize::BITS)
}

/// The diagonal of the reflection that a generator in the given state
/// draws: the sign of its first coin flip, then the sign of its second.
pub open spec fn drawn_sign_diagonal(rng: Xoshiro256PlusPlus) -> (i8, i8) {
    (sign_of(drawn_flag(rng)), sign_of(drawn_flag(stream_after_flag(rng))))
}

/// The generator after it has drawn the diagonal of a reflection.
pub open spec fn stream_after_sign_diagonal(rng: Xoshiro256PlusPlus) -> Xoshiro256PlusPlus {
    stream_after_flag(stream_after_flag(rng))
}

/// Draws the number of affine maps of a system from the stream: 2, 3 or 4.
pub fn transform_count(rng: &mut Xoshiro256PlusPlus) -> (n: usize)
    ensures
        MIN_TRANSFORMS <= n <= MAX_TRANSFORMS,
        n == drawn_transform_count(*old(rng)),
        *final(rng) == stream_after_transform_count(*old(rng)),
{
    gen_range_inclusive(rng, MIN_TRANSFORMS, MAX_TRANSFORMS)
}

/// Draws the diagonal of a reflection matrix from the stream: two coin
/// flips, the first for the upper left entry, each entry 1 or -1.
pub fn random_sign_diagonal(rng: &mut Xoshiro256PlusPlus) -> (d: (i8, i8))
    ensures
        d.0 == 1 || d.0 == -1,
        d.1 == 1 || d.1 == -1,
        d == drawn_sign_diagonal(*old(rng)),
        *final(rng) == stream_after_sign_diagonal(*old(rng)),
{
    let first = gen_bool(rng);
    let second = gen_bool(rng);
    (sign(first), sign(second))
}

/// The integer draws of the sampler are functions of the stream: from
/// generators in one state, the count of maps is the same and so are the
/// signs of a reflection, and the generators are left in one state.
pub proof fn lemma_same_stream_same_draws(a: Xoshiro256PlusPlus, b: Xoshiro256PlusPlus)
    requires
        a == b,
    ensures
        drawn_transform_count(a) == drawn_transform_count(b),
        stream_after_transform_count(a) == stream_after_transform_count(b),
        drawn_sign_diagonal(a) == drawn_sign_diagonal(b),
        stream_after_sign_diagonal(a) == stream_after_sign_diagonal(b),
{
}

} // verus!
