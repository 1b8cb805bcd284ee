//! Unit conversions over fixed-point readings.
//!
//! A reading is an `i64` in micro-units: `1_000_000` stands for one degree
//! Celsius, one metre per second, one millimetre, and so on.  Each conversion
//! states its result exactly, as a truncating rational scaling of the input.

use vstd::prelude::*;

verus! {

/// One whole unit in the fixed-point representation.
pub const MICRO: i64 = 1_000_000;

/// Largest magnitude a raw reading may have (one hundred million whole
/// units in micro fixed point); keeps every conversion free of overflow.
pub const RAW_LIMIT: i64 = 100_000_000_000_000;

/// A reading that conversions accept without overflow.
pub open spec fn in_range(v: int) -> bool {
    -RAW_LIMIT <= v <= RAW_LIMIT
}

/// Division truncating toward zero, as Rust's `/` computes it.
pub open spec fn trunc_div(a: int, b: int) -> int {
    if a >= 0 {
        a / b
    } else {
        -((-a) / b)
    }
}

/// The exact value every linear conversion returns: the input scaled by
/// `num / den`, truncated toward zero.
pub open spec fn spec_scaled(v: int, num: int, den: int) -> int {
    trunc_div(v * num, den)
}

/// Fahrenheit from Celsius: `c * 1.8 + 32`, in micro-units.
pub open spec fn spec_celsius_to_fahrenheit(c: int) -> int {
    trunc_div(c * 18, 10) + 32_000_000
}

/// Celsius from Fahrenheit: `(f - 32) / 1.8`, in micro-units.
pub open spec fn spec_fahrenheit_to_celsius(f: int) -> int {
    trunc_div((f - 32_000_000) * 10, 18)
}

/// Truncating division stays within any symmetric bound on the dividend.
pub proof fn lemma_trunc_div_abs(a: int, b: int, m: int)
    requires
        b >= 1,
        0 <= m,
        -m <= a <= m,
    ensures
        -m <= trunc_div(a, b) <= m,
{
    if a >= 0 {
        vstd::arithmetic::div_mod::lemma_div_pos_is_pos(a, b);
        vstd::arithmetic::div_mod::lemma_div_nonincreasing(a, b);
    } else {
        vstd::arithmetic::div_mod::lemma_div_pos_is_pos(-a, b);
        vstd::arithmetic::div_mod::lemma_div_nonincreasing(-a, b);
    }
}

/// Truncating division is monotone in the dividend, for a positive divisor.
pub proof fn lemma_trunc_div_mono(a: int, b: int, d: int)
    requires
        d >= 1,
        a <= b,
    ensures
        trunc_div(a, d) <= trunc_div(b, d),
{
    if a >= 0 {
        vstd::arithmetic::div_mod::lemma_div_is_ordered(a, b, d);
    } else if b >= 0 {
        vstd::arithmetic::div_mod::lemma_div_pos_is_pos(-a, d);
        vstd::arithmetic::div_mod::lemma_div_pos_is_pos(b, d);
    } else {
        vstd::arithmetic::div_mod::lemma_div_is_ordered(-b, -a, d);
    }
}

/// Scaling truncated toward zero lands within one divisor step of the
/// exact rational value: `den * trunc_div(a, den)` is within `den` of `a`.
pub proof fn lemma_trunc_div_close(a: int, den: int)
    requires
        den >= 1,
    ensures
        a - den < den * trunc_div(a, den) < a + den,
{
    if a >= 0 {
        let q = a / den;
        vstd::arithmetic::div_mod::lemma_remainder(a, den);
        assert(den * q == q * den) by (nonlinear_arith);
    } else {
        let q = (-a) / den;
        vstd::arithmetic::div_mod::lemma_remainder(-a, den);
        assert(den * (-q) == -(q * den)) by (nonlinear_arith);
    }
}

/// Law: every linear conversion sends zero to zero and is monotone
/// in its input.
pub proof fn lemma_conversion_monotone(a: int, b: int, num: int, den: int)
    requires
        a <= b,
        num >= 0,
        den >= 1,
    ensures
        spec_scaled(a, num, den) <= spec_scaled(b, num, den),
        spec_scaled(0, num, den) == 0,
{
    vstd::arithmetic::mul::lemma_mul_inequality(a, b, num);
    lemma_trunc_div_mono(a * num, b * num, den);
    vstd::arithmetic::div_mod::lemma_div_of0(den);
}

/// Law: the scaling underlying each linear conversion is additive, and the
/// truncated result it returns sits within one micro-unit of the exact
/// rational value `v * num / den`.
pub proof fn lemma_conversion_linear(a: int, b: int, num: int, den: int)
    requires
        den >= 1,
    ensures
        (a + b) * num == a * num + b * num,
        a * num - den < den * spec_scaled(a, num, den) < a * num + den,
{
    vstd::arithmetic::mul::lemma_mul_is_distributive_add_other_way(num, a, b);
    lemma_trunc_div_close(a * num, den);
}

/// Law: converting Celsius to Fahrenheit and back returns to within one
/// micro-degree of the starting reading.
pub proof fn lemma_fahrenheit_round_trip(c: int)
    requires
        in_range(c),
    ensures
        -1 <= spec_fahrenheit_to_celsius(spec_celsius_to_fahrenheit(c)) - c <= 1,
{
    let q1 = trunc_div(c * 18, 10);
    let q2 = trunc_div(q1 * 10, 18);
    lemma_trunc_div_close(c * 18, 10);
    lemma_trunc_div_close(q1 * 10, 18);
    assert(spec_fahrenheit_to_celsius(spec_celsius_to_fahrenheit(c)) == q2);
    assert(c * 18 - 28 < 18 * q2 < c * 18 + 28);
    assert(18 * (q2 - c) == 18 * q2 - 18 * c) by (nonlinear_arith);
}

/// Fahrenheit from Celsius, exact per `spec_celsius_to_fahrenheit`.
pub fn celsius_to_fahrenheit(c: i64) -> (r: i64)
    requires
        in_range(c as int),
    ensures
        r == spec_celsius_to_fahrenheit(c as int),
{
    proof {
        lemma_trunc_div_abs(c as int * 18, 10, 18 * RAW_LIMIT as int);
    }
    c * 18 / 10 + 32_000_000
}

/// Celsius from Fahrenheit, exact per `spec_fahrenheit_to_celsius`.
pub fn fahrenheit_to_celsius(f: i64) -> (r: i64)
    requires
        -RAW_LIMIT <= f as int - 32_000_000 <= RAW_LIMIT,
    ensures
        r == spec_fahrenheit_to_celsius(f as int),
{
    proof {
        lemma_trunc_div_abs((f as int - 32_000_000) * 10, 18, 10 * RAW_LIMIT as int);
    }
    ((f - 32_000_000) as i128 * 10 / 18) as i64
}

/// Metres per second to miles per hour: scale by `2.2369`.
pub fn meters_per_second_to_mph(v: i64) -> (r: i64)
    requires
        in_range(v as int),
    ensures
        r == spec_scaled(v as int, 22_369, 10_000),
{
    proof {
        lemma_trunc_div_abs(v as int * 22_369, 10_000, 22_369 * RAW_LIMIT as int);
    }
    (v as i128 * 22_369 / 10_000) as i64
}

/// Millimetres to inches: scale by `0.0393701`.
pub fn millimeters_to_inches(v: i64) -> (r: i64)
    requires
        in_range(v as int),
    ensures
        r == spec_scaled(v as int, 393_701, 10_000_000),
{
    proof {
        lemma_trunc_div_abs(v as int * 393_701, 10_000_000, 393_701 * RAW_LIMIT as int);
    }
    (v as i128 * 393_701 / 10_000_000) as i64
}

/// Kilometres to miles: scale by `0.621371`.
pub fn kilometers_to_miles(v: i64) -> (r: i64)
    requires
        in_range(v as int),
    ensures
        r == spec_scaled(v as int, 621_371, 1_000_000),
{
    proof {
        lemma_trunc_div_abs(v as int * 621_371, 1_000_000, 621_371 * RAW_LIMIT as int);
    }
    (v as i128 * 621_371 / 1_000_000) as i64
}

} // verus!
