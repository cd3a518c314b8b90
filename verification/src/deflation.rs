//! The deflation of memory figures: a multiplication by 1000/1024 carried
//! out in binary64 arithmetic and cut to a whole number, stated and
//! computed here over whole numbers alone.
//!
//! A binary64 value holds 53 significant bits. A whole number below 2^53
//! is such a value; a larger one lies between two neighbours that are
//! `spacing` apart, and an operation yields the nearer of them, the one
//! with the even significand on a tie.

use vstd::arithmetic::div_mod::{lemma_fundamental_div_mod, lemma_mod_bound};
use vstd::prelude::*;

verus! {

/// 2^53: every whole number below it is a binary64 value.
pub const EXACT_LIMIT: u128 = 0x20_0000_0000_0000;

/// 2^52: the least significand of a binary64 value from 2^53 on.
pub const LEAST_SIGNIFICAND: u128 = 0x10_0000_0000_0000;

/// 2^72: the bound under which the rounding here is computed.
pub const ROUNDING_LIMIT: u128 = 0x100_0000_0000_0000_0000;

/// Numerator of the deflation factor 125/128, which is 1000/1024.
pub const FACTOR_NUMERATOR: u128 = 125;

/// Denominator of the deflation factor.
pub const FACTOR_DENOMINATOR: u128 = 128;

/// The distance between neighbouring binary64 values around a whole
/// number: 1 below 2^53, and doubling with each further bit.
pub open spec fn spacing(n: nat) -> nat
    decreases n,
{
    if n < EXACT_LIMIT {
        1
    } else {
        2 * spacing(n / 2)
    }
}

/// The multiple of `unit` nearest to `n`; of two that are equally near,
/// the even multiple.
pub open spec fn nearest_multiple(n: nat, unit: nat) -> nat
    recommends
        unit > 0,
{
    let q = n / unit;
    let r = n % unit;
    if 2 * r > unit || (2 * r == unit && q % 2 == 1) {
        (q + 1) * unit
    } else {
        q * unit
    }
}

/// The binary64 value nearest to a whole number, ties to even.
pub open spec fn binary64_nearest(n: nat) -> nat {
    nearest_multiple(n, spacing(n))
}

/// A memory figure after deflation: the figure as a binary64 value, times
/// 125/128 as a binary64 value, cut to a whole number.
pub open spec fn deflated(value: u64) -> nat {
    binary64_nearest(binary64_nearest(value as nat) * FACTOR_NUMERATOR as nat)
        / FACTOR_DENOMINATOR as nat
}

/// The spacing is 1 below 2^53; from there on it puts the significand
/// between 2^52 and 2^53.
pub proof fn lemma_spacing_bounds(n: nat)
    ensures
        spacing(n) >= 1,
        n < EXACT_LIMIT ==> spacing(n) == 1,
        n >= EXACT_LIMIT ==> spacing(n) * LEAST_SIGNIFICAND <= n < spacing(n) * EXACT_LIMIT,
    decreases n,
{
    if n >= EXACT_LIMIT {
        lemma_spacing_bounds(n / 2);
    }
}

/// Rounding to the nearest binary64 value moves a whole number by at most
/// one part in 2^53, and leaves it in place below 2^53.
pub proof fn lemma_nearest_error(n: nat)
    ensures
        (EXACT_LIMIT - 1) * n <= EXACT_LIMIT * binary64_nearest(n) <= (EXACT_LIMIT + 1) * n,
        n < EXACT_LIMIT ==> binary64_nearest(n) == n,
{
    let unit = spacing(n);
    lemma_spacing_bounds(n);
    let q = n / unit;
    let r = n % unit;
    lemma_fundamental_div_mod(n as int, unit as int);
    lemma_mod_bound(n as int, unit as int);
    assert(unit * q == q * unit) by (nonlinear_arith);
    assert((q + 1) * unit == q * unit + unit) by (nonlinear_arith);
}

/// As long as 125 times a figure stays below 2^53, no rounding takes
/// place: the deflated figure is 125/128 of it, cut to a whole number.
pub proof fn lemma_deflation_exact(value: u64)
    requires
        value * FACTOR_NUMERATOR < EXACT_LIMIT,
    ensures
        deflated(value) == (value * FACTOR_NUMERATOR) / FACTOR_DENOMINATOR as int,
{
    lemma_nearest_error(value as nat);
    lemma_nearest_error(value as nat * FACTOR_NUMERATOR as nat);
}

/// A deflated figure is 125/128 of the figure, short of it by less than one
/// for the cut to a whole number, and off it by at most one part in 2^45
/// of the figure for the two roundings. It is never above the figure.
pub proof fn lemma_deflated_bounds(value: u64)
    ensures
        FACTOR_DENOMINATOR * deflated(value) <= FACTOR_NUMERATOR * value + value
            / 0x2000_0000_0000,
        FACTOR_NUMERATOR * value <= FACTOR_DENOMINATOR * deflated(value) + (FACTOR_DENOMINATOR
            - 1) + value / 0x2000_0000_0000,
        deflated(value) <= value,
{
    let nearest = binary64_nearest(value as nat);
    let scaled = nearest * FACTOR_NUMERATOR as nat;
    lemma_nearest_error(value as nat);
    lemma_nearest_error(scaled);
    let v = value as int;
    let a = nearest as int;
    let p = binary64_nearest(scaled) as int;
    let k = v / 0x2000_0000_0000;
    assert(p <= 125 * v + k) by (nonlinear_arith)
        requires
            0 <= v < 35184372088832 * (k + 1),
            9007199254740992 * a <= 9007199254740993 * v,
            9007199254740992 * p <= 9007199254740993 * (125 * a),
    ;
    assert(125 * v <= p + k) by (nonlinear_arith)
        requires
            0 <= v < 35184372088832 * (k + 1),
            9007199254740991 * v <= 9007199254740992 * a,
            9007199254740991 * (125 * a) <= 9007199254740992 * p,
    ;
}

/// Deflation nearly keeps sums: the deflated used and free figures add up
/// to the deflated total, give or take the cut to a whole number and the
/// rounding, which grows by one for every 2^51 in the total.
pub proof fn lemma_used_and_free_near_total(used: u64, free: u64)
    requires
        used + free <= u64::MAX,
    ensures
        deflated(used) + deflated(free) <= deflated((used + free) as u64) + 1 + (used + free)
            / 0x8_0000_0000_0000,
        deflated((used + free) as u64) <= deflated(used) + deflated(free) + 2 + (used + free)
            / 0x8_0000_0000_0000,
{
    lemma_deflated_bounds(used);
    lemma_deflated_bounds(free);
    lemma_deflated_bounds((used + free) as u64);
}

/// Where no rounding takes place, the deflated used and free figures add
/// up to the deflated total or to one less.
pub proof fn lemma_used_and_free_near_total_exact(used: u64, free: u64)
    requires
        (used + free) * FACTOR_NUMERATOR < EXACT_LIMIT,
    ensures
        deflated(used) + deflated(free) <= deflated((used + free) as u64) <= deflated(used)
            + deflated(free) + 1,
{
    lemma_deflation_exact(used);
    lemma_deflation_exact(free);
    lemma_deflation_exact((used + free) as u64);
}

/// Computes the spacing around a whole number.
fn spacing_of(n: u128) -> (unit: u128)
    requires
        n < ROUNDING_LIMIT,
    ensures
        unit == spacing(n as nat),
        1 <= unit <= 0x10_0000,
{
    let mut q: u128 = n;
    let mut unit: u128 = 1;
    while q >= EXACT_LIMIT
        invariant
            n < ROUNDING_LIMIT,
            1 <= unit,
            unit == 1 || q >= LEAST_SIGNIFICAND,
            unit * q <= n,
            spacing(n as nat) == unit * spacing(q as nat),
        decreases q,
    {
        proof {
            let half = (q / 2) as nat;
            assert(unit < 0x8_0000) by (nonlinear_arith)
                requires
                    unit * q <= n,
                    n < ROUNDING_LIMIT,
                    q >= EXACT_LIMIT,
            ;
            assert((unit * 2) * (q / 2) <= unit * q) by (nonlinear_arith)
                requires
                    unit >= 1,
            ;
            assert(unit * (2 * spacing(half)) == (unit * 2) * spacing(half)) by (nonlinear_arith);
        }
        q = q / 2;
        unit = unit * 2;
    }
    proof {
        lemma_spacing_bounds(q as nat);
        assert(unit <= 0x10_0000) by (nonlinear_arith)
            requires
                unit * q <= n,
                n < ROUNDING_LIMIT,
                unit >= 1,
                q >= LEAST_SIGNIFICAND || unit == 1,
        ;
    }
    unit
}

/// Rounds a whole number to the nearest binary64 value, ties to even.
fn round_to_binary64(n: u128) -> (r: u128)
    requires
        n < ROUNDING_LIMIT,
    ensures
        r == binary64_nearest(n as nat),
{
    let unit: u128 = spacing_of(n);
    let q: u128 = n / unit;
    let r: u128 = n % unit;
    proof {
        lemma_fundamental_div_mod(n as int, unit as int);
        assert(unit * q == q * unit) by (nonlinear_arith);
        assert((q + 1) * unit == q * unit + unit) by (nonlinear_arith);
    }
    if 2 * r > unit || (2 * r == unit && q % 2 == 1) {
        (q + 1) * unit
    } else {
        q * unit
    }
}

/// Deflates a memory figure.
pub fn deflate(value: u64) -> (r: u64)
    ensures
        r == deflated(value),
{
    let nearest: u128 = round_to_binary64(value as u128);
    proof {
        lemma_nearest_error(value as nat);
    }
    let scaled: u128 = nearest * FACTOR_NUMERATOR;
    let product: u128 = round_to_binary64(scaled);
    proof {
        lemma_nearest_error(scaled as nat);
    }
    (product / FACTOR_DENOMINATOR) as u64
}

} // verus!
