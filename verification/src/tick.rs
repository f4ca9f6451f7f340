//! The common tick and the integer arithmetic around it.
//!
//! One second, and one beat, is divided into 28,224,000 ticks. The number is a
//! multiple of every sample rate in common use and of the usual divisions of a
//! beat, so a position given in samples or in fractions of a beat is a whole
//! number of ticks.

use vstd::prelude::*;

verus! {

/// Ticks in one second, and in one beat.
pub const TICKS_PER_UNIT: i64 = 28_224_000;

/// The sample rates, in samples per second, at which a sample is a whole
/// number of ticks and conversion is done in integers.
pub open spec fn is_common_rate(hz: int) -> bool {
    hz == 22_050 || hz == 24_000 || hz == 44_100 || hz == 48_000 || hz == 88_200 || hz == 96_000
        || hz == 176_400 || hz == 192_000
}

/// Ticks in one sample at `hz` samples per second.
pub open spec fn spec_ticks_per_sample(hz: int) -> int
    recommends
        is_common_rate(hz),
{
    TICKS_PER_UNIT as int / hz
}

/// Ticks in one part of a beat that is divided into `parts` equal parts.
pub open spec fn spec_ticks_per_part(parts: int) -> int
    recommends
        is_beat_division(parts),
{
    TICKS_PER_UNIT as int / parts
}

/// The divisions of a beat that have a constructor of their own.
pub open spec fn is_beat_division(parts: int) -> bool {
    parts == 1 || parts == 2 || parts == 4 || parts == 8 || parts == 16 || parts == 32 || parts
        == 64 || parts == 3 || parts == 5 || parts == 7
}

/// Ticks in `count` parts of a beat that is divided into `parts` equal parts.
pub open spec fn beat_parts_to_ticks(count: int, parts: int) -> int
    recommends
        is_beat_division(parts),
{
    count * spec_ticks_per_part(parts)
}

/// The integer nearest to `n / d`; a quotient that lies halfway between two
/// integers goes to the one farther from zero.
///
/// For `n` that is not negative it is the floor of `n / d`, and one more
/// where the remainder is at least half of `d`; a negative `n` gives the
/// mirror image.
pub open spec fn round_div(n: int, d: int) -> int
    recommends
        d > 0,
{
    if n >= 0 {
        n / d + if 2 * (n % d) >= d { 1int } else { 0int }
    } else {
        -((-n) / d + if 2 * ((-n) % d) >= d { 1int } else { 0int })
    }
}

/// Truncating quotient: `a / b` rounded toward zero.
pub open spec fn trunc_div(a: int, b: int) -> int
    recommends
        b != 0,
{
    if a >= 0 {
        a / b
    } else {
        -((-a) / b)
    }
}

/// Ticks in one sample at `sample_rate` samples per second, for the common
/// rates; `None` for every other rate.
pub fn ticks_per_sample(sample_rate: usize) -> (r: Option<u32>)
    ensures
        is_common_rate(sample_rate as int) <==> r is Some,
        r matches Some(k) ==> k == spec_ticks_per_sample(sample_rate as int) && k > 0,
{
    match sample_rate {
        44100 => Some(28_224_000 / 44100),
        48000 => Some(28_224_000 / 48000),
        88200 => Some(28_224_000 / 88200),
        96000 => Some(28_224_000 / 96000),
        176400 => Some(28_224_000 / 176400),
        192000 => Some(28_224_000 / 192000),
        22050 => Some(28_224_000 / 22050),
        24000 => Some(28_224_000 / 24000),
        _ => None,
    }
}

/// `round_div` on a signed numerator.
pub fn round_div_i64(n: i64, d: u32) -> (q: i64)
    requires
        d > 0,
    ensures
        q == round_div(n as int, d as int),
{
    let d64: i64 = d as i64;
    let q: i64 = n / d64;
    let r: i64 = n % d64;
    if r >= 0 {
        proof {
            if n >= 0 {
                vstd::arithmetic::div_mod::lemma_fundamental_div_mod(n as int, d as int);
                vstd::arithmetic::div_mod::lemma_mod_bound(n as int, d as int);
                assert(d * (n as int / d as int) == (n as int / d as int) * d) by (nonlinear_arith);
                lemma_round_div_parts(n as int, d as int, q as int, r as int);
            } else {
                let m = -(n as int);
                vstd::arithmetic::div_mod::lemma_fundamental_div_mod(m, d as int);
                vstd::arithmetic::div_mod::lemma_mod_bound(m, d as int);
                assert(d * (m / d as int) == (m / d as int) * d) by (nonlinear_arith);
                lemma_round_div_parts(m, d as int, -(q as int), 0);
            }
        }
        if r >= d64 - r {
            q + 1
        } else {
            q
        }
    } else {
        proof {
            let m = -(n as int);
            vstd::arithmetic::div_mod::lemma_fundamental_div_mod(m, d as int);
            vstd::arithmetic::div_mod::lemma_mod_bound(m, d as int);
            assert(d * (m / d as int) == (m / d as int) * d) by (nonlinear_arith);
            lemma_round_div_parts(m, d as int, -(q as int), -(r as int));
        }
        if -r >= d64 + r {
            q - 1
        } else {
            q
        }
    }
}

/// `round_div` on an unsigned numerator.
pub fn round_div_usize(n: usize, d: u32) -> (q: usize)
    requires
        d > 0,
    ensures
        q == round_div(n as int, d as int),
{
    let du: usize = d as usize;
    let q: usize = n / du;
    let r: usize = n % du;
    proof {
        vstd::arithmetic::div_mod::lemma_fundamental_div_mod(n as int, d as int);
        assert(d * (n as int / d as int) == (n as int / d as int) * d) by (nonlinear_arith);
        lemma_round_div_parts(n as int, d as int, q as int, r as int);
    }
    if r >= du - r {
        q + 1
    } else {
        q
    }
}

/// `round_div` from a quotient and remainder of a numerator that is not
/// negative: the quotient goes up by one where the remainder is at least half
/// of the divisor.
pub proof fn lemma_round_div_parts(n: int, d: int, q: int, r: int)
    requires
        d > 0,
        0 <= r < d,
        n == q * d + r,
        n >= 0,
    ensures
        q >= 0,
        round_div(n, d) == if 2 * r >= d { q + 1 } else { q },
        2 * r >= d ==> 2 * (q + 1) <= n + 1,
{
    assert(q >= 0) by (nonlinear_arith)
        requires
            d > 0,
            0 <= r < d,
            q * d + r >= 0,
    ;
    vstd::arithmetic::div_mod::lemma_fundamental_div_mod_converse(n, d, q, r);
    if 2 * r >= d {
        assert(2 * (q + 1) <= n + 1) by (nonlinear_arith)
            requires
                n == q * d + r,
                2 * r >= d,
                r < d,
                q >= 0,
        ;
    }
}

/// Every common rate divides the number of ticks in a second: a sample is a
/// whole number of ticks, and at least one.
pub proof fn lemma_common_rate_divides(hz: int)
    requires
        is_common_rate(hz),
    ensures
        spec_ticks_per_sample(hz) * hz == TICKS_PER_UNIT,
        TICKS_PER_UNIT as int % hz == 0,
        spec_ticks_per_sample(hz) > 0,
{
}

/// Every division of a beat that has a constructor divides the number of
/// ticks in a beat: each part is a whole number of ticks.
pub proof fn lemma_beat_division_divides(parts: int)
    requires
        is_beat_division(parts),
    ensures
        spec_ticks_per_part(parts) * parts == TICKS_PER_UNIT,
        TICKS_PER_UNIT as int % parts == 0,
{
}

/// As many parts as a beat is divided into make one beat: `parts * beats`
/// parts are the same musical time as `beats` whole beats.
pub proof fn lemma_beat_parts_make_beats(beats: int, parts: int)
    requires
        is_beat_division(parts),
    ensures
        beat_parts_to_ticks(parts * beats, parts) == beat_parts_to_ticks(beats, 1),
{
    lemma_beat_division_divides(parts);
    let k = spec_ticks_per_part(parts);
    assert((parts * beats) * k == beats * (k * parts)) by (nonlinear_arith);
}

/// Rounding a multiple of the divisor gives the factor back: dividing undoes
/// multiplying, for every sign of `n`.
pub proof fn lemma_round_div_of_multiple(n: int, d: int)
    requires
        d > 0,
    ensures
        round_div(n * d, d) == n,
{
    if n >= 0 {
        assert(n * d >= 0) by (nonlinear_arith)
            requires
                n >= 0,
                d > 0,
        ;
        lemma_round_div_parts(n * d, d, n, 0);
    } else {
        assert(n * d < 0 && -(n * d) == (-n) * d) by (nonlinear_arith)
            requires
                n < 0,
                d > 0,
        ;
        lemma_round_div_parts((-n) * d, d, -n, 0);
    }
}

/// `round_div(n, d)` is an integer nearest to `n / d`: it is off by at most
/// half. Where it is off by exactly half, it is the neighbour farther from
/// zero.
pub proof fn lemma_round_div_nearest(n: int, d: int)
    requires
        d > 0,
    ensures
        -d <= 2 * (n - round_div(n, d) * d) <= d,
        n >= 0 ==> 2 * (n - round_div(n, d) * d) < d,
        n < 0 ==> -d < 2 * (n - round_div(n, d) * d),
{
    let m = if n >= 0 { n } else { -n };
    let q = m / d;
    let r = m % d;
    vstd::arithmetic::div_mod::lemma_fundamental_div_mod(m, d);
    vstd::arithmetic::div_mod::lemma_mod_bound(m, d);
    assert(d * q == q * d) by (nonlinear_arith);
    lemma_round_div_parts(m, d, q, r);
    assert((q + 1) * d == q * d + d) by (nonlinear_arith);
    assert((-(q + 1)) * d == -(q * d) - d) by (nonlinear_arith);
    assert((-q) * d == -(q * d)) by (nonlinear_arith);
}

/// A truncating quotient of two 64-bit integers fits in 64 bits, but for the
/// least integer divided by minus one.
pub proof fn lemma_trunc_div_in_range(a: int, b: int)
    requires
        i64::MIN <= a <= i64::MAX,
        i64::MIN <= b <= i64::MAX,
        b != 0,
        !(a == i64::MIN && b == -1),
    ensures
        i64::MIN <= trunc_div(a, b) <= i64::MAX,
{
    if a >= 0 {
        assert(-a <= a / b <= a) by (nonlinear_arith)
            requires
                a >= 0,
                b != 0,
        ;
    } else {
        assert(a <= (-a) / b <= -a) by (nonlinear_arith)
            requires
                a < 0,
                b != 0,
        ;
        if a == i64::MIN {
            assert((-a) / b > i64::MIN) by (nonlinear_arith)
                requires
                    a == i64::MIN,
                    b != 0,
                    b != -1,
            ;
        }
    }
}

} // verus!
