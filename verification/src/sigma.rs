//! The sigma-factor construction in exact arithmetic.
//!
//! The sampler of singular values tightens a pair of running bounds with
//! each draw. This module states that recurrence over the real numbers and
//! proves what it is built for: no draw ever meets an empty interval, every
//! pair of singular values lies in the unit interval in descending order, and
//! the pairs add up to the sigma-factor. It states the weights of the maps
//! in the same way, and proves that they are a probability distribution. The
//! program computes both in floating point, where each step is rounded; what
//! is proved here is the arithmetic that it approximates.

use vstd::prelude::*;

verus! {

/// The greater of two numbers.
pub open spec fn greater(a: real, b: real) -> real {
    if a >= b {
        a
    } else {
        b
    }
}

/// The lesser of two numbers.
pub open spec fn lesser(a: real, b: real) -> real {
    if a <= b {
        a
    } else {
        b
    }
}

/// The point at the fraction `u` of the way from `lo` to `hi`: what a
/// uniform draw between the two returns for the unit draw `u`.
pub open spec fn between(lo: real, hi: real, u: real) -> real {
    lo + (hi - lo) * u
}

/// A unit draw lies in the unit interval.
pub open spec fn is_unit(u: real) -> bool {
    0real <= u <= 1real
}

/// A draw between two bounds in ascending order lies between them.
pub proof fn lemma_between_in_range(lo: real, hi: real, u: real)
    requires
        lo <= hi,
        is_unit(u),
    ensures
        lo <= between(lo, hi, u) <= hi,
{
    assert((hi - lo) * u >= 0real) by (nonlinear_arith)
        requires
            hi - lo >= 0real,
            u >= 0real,
    ;
    assert((hi - lo) * u <= hi - lo) by (nonlinear_arith)
        requires
            hi - lo >= 0real,
            u <= 1real,
    ;
}

/// The running bounds fit `k` pairs that are still to be sampled: the two
/// are three apart for each pair after the next, the lower one is at most 3
/// and the upper one is not negative.
pub open spec fn bounds_fit(lower: real, upper: real, k: nat) -> bool {
    &&& k >= 1
    &&& lower == upper - 3real * ((k - 1) as real)
    &&& lower <= 3real
    &&& upper >= 0real
}

/// The first singular value of a pair but the last, for the unit draw `u`.
pub open spec fn first_sigma(lower: real, upper: real, u: real) -> real {
    between(greater(0real, lower / 3real), lesser(1real, upper), u)
}

/// The second singular value of a pair but the last, for the first one `s1`
/// and the unit draw `u`.
pub open spec fn second_sigma(lower: real, upper: real, s1: real, u: real) -> real {
    between(
        greater(0real, (lower - s1) / 2real),
        lesser(s1, (upper - s1) / 2real),
        u,
    )
}

/// The second singular value of the last pair, for the unit draw `u`.
pub open spec fn closing_sigma(upper: real, u: real) -> real {
    between(greater(0real, (upper - 1real) / 2real), upper / 3real, u)
}

/// What a pair takes of the sigma-factor: its first singular value and
/// twice its second.
pub open spec fn share(pair: (real, real)) -> real {
    pair.0 + 2real * pair.1
}

/// The `k` pairs that the sampler draws from the running bounds, for the
/// unit draws `us`: two draws for each pair but the last, one for the last,
/// whose first singular value takes what is left of the upper bound.
pub open spec fn singular_values(lower: real, upper: real, k: nat, us: Seq<real>) -> Seq<
    (real, real),
>
    decreases k,
{
    if k <= 1 {
        let s2 = closing_sigma(upper, us[0]);
        seq![(upper - 2real * s2, s2)]
    } else {
        let s1 = first_sigma(lower, upper, us[0]);
        let s2 = second_sigma(lower, upper, s1, us[1]);
        seq![(s1, s2)] + singular_values(
            lower - s1 - 2real * s2 + 3real,
            upper - s1 - 2real * s2,
            (k - 1) as nat,
            us.skip(2),
        )
    }
}

/// The sum of the shares of the pairs.
pub open spec fn total_share(pairs: Seq<(real, real)>) -> real
    decreases pairs.len(),
{
    if pairs.len() == 0 {
        0real
    } else {
        share(pairs[0]) + total_share(pairs.skip(1))
    }
}

/// A pair of singular values is well-formed: both lie in the unit interval,
/// the second is not above the first.
pub open spec fn is_contraction(pair: (real, real)) -> bool {
    0real <= pair.1 <= pair.0 <= 1real
}

/// The least sigma-factor of a system of `n` maps.
pub open spec fn alpha_lower(n: nat) -> real {
    (5real + n as real) / 2real
}

/// The greatest sigma-factor of a system of `n` maps.
pub open spec fn alpha_upper(n: nat) -> real {
    (6real + n as real) / 2real
}

/// The sigma-factor of a system of `n` maps, for the unit draw `u`.
pub open spec fn sigma_factor(n: nat, u: real) -> real {
    between(alpha_lower(n), alpha_upper(n), u)
}

/// The pairs of singular values of a system of `n` maps and sigma-factor
/// `alpha`, for the unit draws `us`.
pub open spec fn sampled_pairs(alpha: real, n: nat, us: Seq<real>) -> Seq<(real, real)> {
    singular_values(alpha - 3real * (n as real) + 3real, alpha, n, us)
}

/// One pair but the last: both of its draws are made between bounds in
/// ascending order, the pair is well-formed, and the bounds that it leaves
/// fit the pairs that follow.
pub proof fn lemma_inner_pair(lower: real, upper: real, k: nat, u1: real, u2: real)
    requires
        bounds_fit(lower, upper, k),
        k >= 2,
        is_unit(u1),
        is_unit(u2),
    ensures
        greater(0real, lower / 3real) <= lesser(1real, upper),
        ({
            let s1 = first_sigma(lower, upper, u1);
            greater(0real, (lower - s1) / 2real) <= lesser(s1, (upper - s1) / 2real)
        }),
        ({
            let s1 = first_sigma(lower, upper, u1);
            let s2 = second_sigma(lower, upper, s1, u2);
            &&& is_contraction((s1, s2))
            &&& bounds_fit(
                lower - s1 - 2real * s2 + 3real,
                upper - s1 - 2real * s2,
                (k - 1) as nat,
            )
        }),
{
    let lo1 = greater(0real, lower / 3real);
    let hi1 = lesser(1real, upper);
    assert(((k - 1) as real) >= 1real);
    assert(lo1 <= hi1);
    lemma_between_in_range(lo1, hi1, u1);
    let s1 = first_sigma(lower, upper, u1);
    let lo2 = greater(0real, (lower - s1) / 2real);
    let hi2 = lesser(s1, (upper - s1) / 2real);
    assert(lo2 <= hi2);
    lemma_between_in_range(lo2, hi2, u2);
    assert(((k - 1) as nat - 1) as real == ((k - 1) as real) - 1real);
}

/// The last pair: its draw is made between bounds in ascending order, the
/// pair is well-formed, and it takes all that is left of the upper bound.
pub proof fn lemma_closing_pair(lower: real, upper: real, u: real)
    requires
        bounds_fit(lower, upper, 1),
        is_unit(u),
    ensures
        greater(0real, (upper - 1real) / 2real) <= upper / 3real,
        ({
            let s2 = closing_sigma(upper, u);
            &&& is_contraction((upper - 2real * s2, s2))
            &&& share((upper - 2real * s2, s2)) == upper
        }),
{
    let lo = greater(0real, (upper - 1real) / 2real);
    let hi = upper / 3real;
    assert(lo <= hi);
    lemma_between_in_range(lo, hi, u);
}

/// From bounds that fit `k` pairs the sampler draws `k` pairs, each of them
/// well-formed, whose shares add up to the upper bound.
pub proof fn lemma_singular_values(lower: real, upper: real, k: nat, us: Seq<real>)
    requires
        bounds_fit(lower, upper, k),
        us.len() == 2 * k - 1,
        forall|i: int| 0 <= i < us.len() ==> is_unit(#[trigger] us[i]),
    ensures
        singular_values(lower, upper, k, us).len() == k,
        forall|i: int|
            0 <= i < k ==> is_contraction(#[trigger] singular_values(lower, upper, k, us)[i]),
        total_share(singular_values(lower, upper, k, us)) == upper,
    decreases k,
{
    let pairs = singular_values(lower, upper, k, us);
    if k <= 1 {
        lemma_closing_pair(lower, upper, us[0]);
        assert(pairs.skip(1) =~= Seq::<(real, real)>::empty());
        assert(total_share(pairs.skip(1)) == 0real);
    } else {
        lemma_inner_pair(lower, upper, k, us[0], us[1]);
        let s1 = first_sigma(lower, upper, us[0]);
        let s2 = second_sigma(lower, upper, s1, us[1]);
        let rest_us = us.skip(2);
        let next_lower = lower - s1 - 2real * s2 + 3real;
        let next_upper = upper - s1 - 2real * s2;
        assert forall|i: int| 0 <= i < rest_us.len() implies is_unit(#[trigger] rest_us[i]) by {
            assert(rest_us[i] == us[i + 2]);
        }
        lemma_singular_values(next_lower, next_upper, (k - 1) as nat, rest_us);
        let rest = singular_values(next_lower, next_upper, (k - 1) as nat, rest_us);
        assert(pairs == seq![(s1, s2)] + rest);
        assert(pairs.skip(1) =~= rest);
        assert forall|i: int| 0 <= i < k implies is_contraction(#[trigger] pairs[i]) by {
            if i > 0 {
                assert(pairs[i] == rest[i - 1]);
            }
        }
    }
}

/// The sampler is sound for every system that it may draw: for 2, 3 or 4
/// maps and any unit draws, the sigma-factor lies between its two bounds,
/// there are as many pairs of singular values as maps, every pair is
/// well-formed, and the shares of the pairs add up to the sigma-factor.
pub proof fn lemma_sampler_sound(n: nat, u: real, us: Seq<real>)
    requires
        2 <= n <= 4,
        is_unit(u),
        us.len() == 2 * n - 1,
        forall|i: int| 0 <= i < us.len() ==> is_unit(#[trigger] us[i]),
    ensures
        alpha_lower(n) <= sigma_factor(n, u) <= alpha_upper(n),
        sampled_pairs(sigma_factor(n, u), n, us).len() == n,
        forall|i: int|
            0 <= i < n ==> is_contraction(#[trigger] sampled_pairs(sigma_factor(n, u), n, us)[i]),
        total_share(sampled_pairs(sigma_factor(n, u), n, us)) == sigma_factor(n, u),
{
    lemma_between_in_range(alpha_lower(n), alpha_upper(n), u);
    let alpha = sigma_factor(n, u);
    assert((n - 1) as real == (n as real) - 1real);
    lemma_singular_values(alpha - 3real * (n as real) + 3real, alpha, n, us);
}

/// The absolute value of a number.
pub open spec fn magnitude(x: real) -> real {
    if x >= 0real {
        x
    } else {
        0real - x
    }
}

/// The sum of a sequence of numbers.
pub open spec fn sum(s: Seq<real>) -> real
    decreases s.len(),
{
    if s.len() == 0 {
        0real
    } else {
        sum(s.drop_last()) + s.last()
    }
}

/// The magnitudes of the determinants of the maps, one for one.
pub open spec fn magnitudes(dets: Seq<real>) -> Seq<real> {
    Seq::new(dets.len(), |i: int| magnitude(dets[i]))
}

/// A sequence of numbers with each of them divided by `t`.
pub open spec fn scaled(s: Seq<real>, t: real) -> Seq<real> {
    Seq::new(s.len(), |i: int| s[i] / t)
}

/// The weights of the maps: the magnitude of the determinant of each,
/// divided by the sum of them all.
pub open spec fn weights(dets: Seq<real>) -> Seq<real> {
    scaled(magnitudes(dets), sum(magnitudes(dets)))
}

/// Dividing each number of a sequence divides their sum.
pub proof fn lemma_sum_scaled(s: Seq<real>, t: real)
    requires
        t != 0real,
    ensures
        sum(scaled(s, t)) == sum(s) / t,
    decreases s.len(),
{
    if s.len() == 0 {
        assert(0real / t == 0real) by (nonlinear_arith)
            requires
                t != 0real,
        ;
    } else {
        lemma_sum_scaled(s.drop_last(), t);
        assert(scaled(s, t).drop_last() =~= scaled(s.drop_last(), t));
        let a = sum(s.drop_last());
        let b = s.last();
        assert(a / t + b / t == (a + b) / t) by (nonlinear_arith)
            requires
                t != 0real,
        ;
    }
}

/// A sum of magnitudes is not negative.
pub proof fn lemma_sum_magnitudes(dets: Seq<real>)
    ensures
        sum(magnitudes(dets)) >= 0real,
    decreases dets.len(),
{
    if dets.len() > 0 {
        lemma_sum_magnitudes(dets.drop_last());
        assert(magnitudes(dets).drop_last() =~= magnitudes(dets.drop_last()));
    }
}

/// The weights are a probability distribution over the maps: where the
/// determinants are not all zero, there is one weight for each map, no
/// weight is negative, and the weights add up to 1.
pub proof fn lemma_weights_are_distribution(dets: Seq<real>)
    requires
        sum(magnitudes(dets)) != 0real,
    ensures
        weights(dets).len() == dets.len(),
        forall|i: int| 0 <= i < dets.len() ==> #[trigger] weights(dets)[i] >= 0real,
        sum(weights(dets)) == 1real,
{
    let total = sum(magnitudes(dets));
    lemma_sum_magnitudes(dets);
    lemma_sum_scaled(magnitudes(dets), total);
    assert(total / total == 1real) by (nonlinear_arith)
        requires
            total != 0real,
    ;
    assert forall|i: int| 0 <= i < dets.len() implies #[trigger] weights(dets)[i] >= 0real by {
        let m = magnitude(dets[i]);
        assert(m / total >= 0real) by (nonlinear_arith)
            requires
                m >= 0real,
                total > 0real,
        ;
    }
}

} // verus!
