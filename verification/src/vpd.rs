//! Vapor-pressure deficit, the derived atmospheric metric computed from
//! temperature and relative humidity.
//!
//! The saturated vapor pressure is `0.6107 * 10 ^ (7.5 c / (237.3 + c))`
//! kilopascals, and the deficit scales it by the missing fraction of
//! relative humidity.  The power of ten is evaluated in fixed point by
//! splitting the exponent into an integer part and twenty binary digits of
//! the fractional part, each contributing a precomputed factor.  The one
//! singular input is `c = -237.3` degrees, where the exponent's denominator
//! vanishes: that input is rejected with a `DomainError`.

use crate::units::{in_range, trunc_div, RAW_LIMIT};
use vstd::prelude::*;

verus! {

/// The numeric singularity of the vapor-pressure-deficit formula,
/// in micro-degrees Celsius.
pub const VPD_SINGULARITY: i64 = -237_300_000;

/// Error for the one input on which a derived metric is undefined.
#[derive(Clone, Copy, Debug, PartialEq, Eq, Structural)]
pub struct DomainError;

/// Ten to the power `n`.
pub open spec fn spec_pow10(n: nat) -> int
    decreases n,
{
    if n == 0 {
        1
    } else {
        10 * spec_pow10((n - 1) as nat)
    }
}

/// The factor `round(10 ^ (2^-(i+1)) * 10^9)` contributed by the `i`-th
/// binary digit of the exponent's fractional part.
pub open spec fn frac_const(i: int) -> int {
    if i == 0 {
        3_162_277_660
    } else if i == 1 {
        1_778_279_410
    } else if i == 2 {
        1_333_521_432
    } else if i == 3 {
        1_154_781_985
    } else if i == 4 {
        1_074_607_828
    } else if i == 5 {
        1_036_632_928
    } else if i == 6 {
        1_018_151_722
    } else if i == 7 {
        1_009_035_045
    } else if i == 8 {
        1_004_507_364
    } else if i == 9 {
        1_002_251_148
    } else if i == 10 {
        1_001_124_941
    } else if i == 11 {
        1_000_562_313
    } else if i == 12 {
        1_000_281_117
    } else if i == 13 {
        1_000_140_549
    } else if i == 14 {
        1_000_070_272
    } else if i == 15 {
        1_000_035_135
    } else if i == 16 {
        1_000_017_567
    } else if i == 17 {
        1_000_008_784
    } else if i == 18 {
        1_000_004_392
    } else {
        1_000_002_196
    }
}

/// Upper bound on the accumulated product after the first `i` digits
/// have been processed.
pub open spec fn frac_bound(i: int) -> int {
    if i == 0 {
        1_000_000_000
    } else if i == 1 {
        3_162_277_660
    } else if i == 2 {
        5_623_413_251
    } else if i == 3 {
        7_498_942_091
    } else if i == 4 {
        8_659_643_233
    } else if i == 5 {
        9_305_720_405
    } else if i == 6 {
        9_646_616_190
    } else if i == 7 {
        9_821_718_885
    } else if i == 8 {
        9_910_458_557
    } else if i == 9 {
        9_955_128_601
    } else if i == 10 {
        9_977_539_068
    } else if i == 11 {
        9_988_763_210
    } else if i == 12 {
        9_994_380_021
    } else if i == 13 {
        9_997_189_611
    } else if i == 14 {
        9_998_594_706
    } else if i == 15 {
        9_999_297_327
    } else if i == 16 {
        9_999_648_652
    } else if i == 17 {
        9_999_824_315
    } else if i == 18 {
        9_999_912_153
    } else if i == 19 {
        9_999_956_072
    } else {
        9_999_978_031
    }
}

/// `10 ^ (f / 10^6)` at scale `10^9`, computed over the binary digits of
/// the fraction `f`, starting at digit `i` with accumulator `r`.
pub open spec fn spec_frac_steps(f: int, i: int, r: int) -> int
    decreases 20 - i,
{
    if i >= 20 {
        r
    } else {
        let f2 = 2 * f;
        if f2 >= 1_000_000 {
            spec_frac_steps(f2 - 1_000_000, i + 1, (r * frac_const(i)) / 1_000_000_000)
        } else {
            spec_frac_steps(f2, i + 1, r)
        }
    }
}

/// `10 ^ (e / 10^6)` at scale `10^6`, for a micro-scaled exponent `e`:
/// the fractional factor shifted by the exponent's integer part.
pub open spec fn spec_pow10_micro(e: int) -> int {
    let k = e / 1_000_000;
    let f = e % 1_000_000;
    let p = spec_frac_steps(f, 0, 1_000_000_000);
    if k >= 3 {
        p * spec_pow10((k - 3) as nat)
    } else if 3 - k <= 19 {
        p / spec_pow10((3 - k) as nat)
    } else {
        0
    }
}

/// The micro-scaled exponent `7.5 c / (237.3 + c)` of the saturated
/// vapor-pressure formula.
pub open spec fn spec_vpd_exponent(c: int) -> int {
    trunc_div(15 * c * 1_000_000, 2 * (c + 237_300_000))
}

/// The exponent floored at `-20`: beyond that the power of ten is zero
/// at micro scale anyway.
pub open spec fn spec_vpd_exponent_clamped(c: int) -> int {
    if spec_vpd_exponent(c) < -20_000_000 {
        -20_000_000
    } else {
        spec_vpd_exponent(c)
    }
}

/// Saturated vapor pressure in micro-kilopascals: `0.6107 * 10^e`.
pub open spec fn spec_vp_saturated(c: int) -> int {
    (6107 * spec_pow10_micro(spec_vpd_exponent_clamped(c))) / 10_000
}

/// Vapor-pressure deficit in micro-kilopascals:
/// `(100 - rh) / 100` of the saturated vapor pressure.
pub open spec fn spec_vpd(c: int, rh: int) -> int {
    trunc_div((100_000_000 - rh) * spec_vp_saturated(c), 100_000_000)
}

/// Truncating division by `b` of a value within `m * b` lands within `m`.
proof fn lemma_trunc_div_ratio(a: int, b: int, m: int)
    requires
        b >= 1,
        0 <= m,
        -(m * b) <= a <= m * b,
    ensures
        -m <= trunc_div(a, b) <= m,
{
    vstd::arithmetic::mul::lemma_mul_is_commutative(m, b);
    if a >= 0 {
        vstd::arithmetic::div_mod::lemma_div_pos_is_pos(a, b);
        vstd::arithmetic::div_mod::lemma_multiply_divide_le(a, b, m);
    } else {
        vstd::arithmetic::div_mod::lemma_div_pos_is_pos(-a, b);
        vstd::arithmetic::div_mod::lemma_multiply_divide_le(-a, b, m);
    }
}

/// One fixed-point multiply at scale `10^9`.
fn mulfrac(a: u64, c: u64) -> (r: u64)
    requires
        a <= 10_000_000_000,
        c <= 3_200_000_000,
    ensures
        r == (a as int * c as int) / 1_000_000_000,
{
    proof {
        vstd::arithmetic::mul::lemma_mul_upper_bound(
            a as int,
            10_000_000_000,
            c as int,
            3_200_000_000,
        );
        vstd::arithmetic::div_mod::lemma_div_pos_is_pos(a as int * c as int, 1_000_000_000);
        vstd::arithmetic::div_mod::lemma_div_is_ordered(
            a as int * c as int,
            32_000_000_000_000_000_000,
            1_000_000_000,
        );
    }
    ((a as u128) * (c as u128) / 1_000_000_000) as u64
}

fn frac_const_exec(i: usize) -> (c: u64)
    requires
        i < 20,
    ensures
        c == frac_const(i as int),
{
    match i {
        0 => 3_162_277_660,
        1 => 1_778_279_410,
        2 => 1_333_521_432,
        3 => 1_154_781_985,
        4 => 1_074_607_828,
        5 => 1_036_632_928,
        6 => 1_018_151_722,
        7 => 1_009_035_045,
        8 => 1_004_507_364,
        9 => 1_002_251_148,
        10 => 1_001_124_941,
        11 => 1_000_562_313,
        12 => 1_000_281_117,
        13 => 1_000_140_549,
        14 => 1_000_070_272,
        15 => 1_000_035_135,
        16 => 1_000_017_567,
        17 => 1_000_008_784,
        18 => 1_000_004_392,
        _ => 1_000_002_196,
    }
}

/// `10 ^ (f / 10^6)` at scale `10^9`, for `f` in `[0, 10^6)`.
fn pow10_frac(f0: u64) -> (r: u64)
    requires
        f0 < 1_000_000,
    ensures
        r == spec_frac_steps(f0 as int, 0, 1_000_000_000),
        1_000_000_000 <= r <= 9_999_978_031,
{
    let mut f: u64 = f0;
    let mut r: u64 = 1_000_000_000;
    let mut i: usize = 0;
    while i < 20
        invariant
            i <= 20,
            f < 1_000_000,
            1_000_000_000 <= r,
            r <= frac_bound(i as int),
            spec_frac_steps(f0 as int, 0, 1_000_000_000) == spec_frac_steps(
                f as int,
                i as int,
                r as int,
            ),
        decreases 20 - i,
    {
        let ghost f_old = f as int;
        let ghost r_old = r as int;
        let f2: u64 = 2 * f;
        if f2 >= 1_000_000 {
            let c = frac_const_exec(i);
            proof {
                assert(frac_bound(i as int) <= 9_999_978_031);
                assert(c <= 3_200_000_000);
                vstd::arithmetic::mul::lemma_mul_inequality(
                    r as int,
                    frac_bound(i as int),
                    c as int,
                );
                vstd::arithmetic::div_mod::lemma_div_is_ordered(
                    r as int * c as int,
                    frac_bound(i as int) * c as int,
                    1_000_000_000,
                );
                assert(frac_bound(i as int) * c as int / 1_000_000_000 <= frac_bound(
                    i as int + 1,
                ));
                vstd::arithmetic::mul::lemma_mul_inequality(
                    1_000_000_000,
                    c as int,
                    r as int,
                );
                vstd::arithmetic::mul::lemma_mul_is_commutative(c as int, r as int);
                vstd::arithmetic::div_mod::lemma_div_is_ordered(
                    1_000_000_000 * r as int,
                    r as int * c as int,
                    1_000_000_000,
                );
                vstd::arithmetic::div_mod::lemma_div_multiples_vanish(
                    r as int,
                    1_000_000_000,
                );
            }
            r = mulfrac(r, c);
            f = f2 - 1_000_000;
        } else {
            proof {
                assert(frac_bound(i as int) <= frac_bound(i as int + 1));
            }
            f = f2;
        }
        i = i + 1;
        proof {
            assert(spec_frac_steps(f_old, i as int - 1, r_old) == spec_frac_steps(
                f as int,
                i as int,
                r as int,
            ));
        }
    }
    r
}

fn pow10_int(n: u64) -> (r: u64)
    requires
        n <= 19,
    ensures
        r == spec_pow10(n as nat),
        1 <= r,
{
    proof {
        reveal_with_fuel(spec_pow10, 21);
    }
    match n {
        0 => 1,
        1 => 10,
        2 => 100,
        3 => 1_000,
        4 => 10_000,
        5 => 100_000,
        6 => 1_000_000,
        7 => 10_000_000,
        8 => 100_000_000,
        9 => 1_000_000_000,
        10 => 10_000_000_000,
        11 => 100_000_000_000,
        12 => 1_000_000_000_000,
        13 => 10_000_000_000_000,
        14 => 100_000_000_000_000,
        15 => 1_000_000_000_000_000,
        16 => 10_000_000_000_000_000,
        17 => 100_000_000_000_000_000,
        18 => 1_000_000_000_000_000_000,
        _ => 10_000_000_000_000_000_000,
    }
}

/// `10 ^ (e / 10^6)` at scale `10^6`, for a micro-scaled exponent in
/// `[-20, 7.5)`.
fn pow10_micro(e: i64) -> (r: u64)
    requires
        -20_000_000 <= e < 7_500_000,
    ensures
        r == spec_pow10_micro(e as int),
        r <= 99_999_780_310_000,
{
    let k: i64 = if e >= 0 {
        e / 1_000_000
    } else {
        -((-e + 999_999) / 1_000_000)
    };
    proof {
        if e < 0 {
            let q = e as int / 1_000_000;
            let rm = e as int % 1_000_000;
            vstd::arithmetic::div_mod::lemma_fundamental_div_mod(e as int, 1_000_000);
            vstd::arithmetic::div_mod::lemma_div_multiples_vanish_fancy(
                -q,
                999_999 - rm,
                1_000_000,
            );
            assert(-(e as int) + 999_999 == 1_000_000 * (-q) + (999_999 - rm));
        }
    }
    let f: i64 = e - k * 1_000_000;
    proof {
        vstd::arithmetic::div_mod::lemma_fundamental_div_mod(e as int, 1_000_000);
    }
    let p = pow10_frac(f as u64);
    if k >= 3 {
        proof {
            vstd::arithmetic::div_mod::lemma_div_is_ordered(e as int, 7_499_999, 1_000_000);
            assert(k <= 7);
        }
        let shift = pow10_int((k - 3) as u64);
        proof {
            reveal_with_fuel(spec_pow10, 6);
            assert(spec_pow10((k - 3) as nat) <= 10_000);
            vstd::arithmetic::mul::lemma_mul_upper_bound(
                p as int,
                9_999_978_031,
                shift as int,
                10_000,
            );
        }
        p * shift
    } else {
        let s: i64 = 3 - k;
        if s <= 19 {
            let shift = pow10_int(s as u64);
            proof {
                vstd::arithmetic::div_mod::lemma_div_pos_is_pos(p as int, shift as int);
                vstd::arithmetic::div_mod::lemma_div_nonincreasing(p as int, shift as int);
            }
            p / shift
        } else {
            0
        }
    }
}

/// Vapor-pressure deficit in micro-kilopascals, from micro-degrees Celsius
/// and micro-percent relative humidity.
///
/// Defined for every temperature except the formula's singularity at
/// `-237.3` degrees, which is rejected with `DomainError`; on every other
/// admitted input the function is total and returns exactly `spec_vpd`.
pub fn vapor_pressure_deficit(c: i64, rh: i64) -> (r: Result<i64, DomainError>)
    requires
        VPD_SINGULARITY <= c,
        in_range(c as int),
        -1_000_000_000 <= rh <= 1_000_000_000,
    ensures
        r is Err <==> c == VPD_SINGULARITY,
        r is Ok ==> r->Ok_0 == spec_vpd(c as int, rh as int),
{
    if c == VPD_SINGULARITY {
        return Err(DomainError);
    }
    let den: i64 = c + 237_300_000;
    let num: i128 = 15 * (c as i128) * 1_000_000;
    let e_wide: i128 = num / (2 * den as i128);
    proof {
        lemma_trunc_div_ratio(num as int, 2 * den as int, 1_779_750_000_000_000);
        if c >= 0 {
            vstd::arithmetic::div_mod::lemma_div_pos_is_pos(num as int, 2 * den as int);
            vstd::arithmetic::div_mod::lemma_multiply_divide_lt(
                num as int,
                2 * den as int,
                7_500_000,
            );
        } else {
            vstd::arithmetic::div_mod::lemma_div_pos_is_pos(-(num as int), 2 * den as int);
        }
    }
    let e_raw: i64 = e_wide as i64;
    let e: i64 = if e_raw < -20_000_000 {
        -20_000_000
    } else {
        e_raw
    };
    let p10 = pow10_micro(e);
    let vps: u64 = 6107 * p10 / 10_000;
    proof {
        vstd::arithmetic::div_mod::lemma_div_pos_is_pos(6107 * p10 as int, 10_000);
        vstd::arithmetic::div_mod::lemma_div_is_ordered(
            6107 * p10 as int,
            (6107 * 99_999_780_310_000) as int,
            10_000,
        );
    }
    let factor: i128 = 100_000_000 - (rh as i128);
    proof {
        assert(-67_176_852_418_848_700_000_000 <= factor as int * vps as int
            <= 67_176_852_418_848_700_000_000) by (nonlinear_arith)
            requires
                -1_100_000_000 <= factor as int <= 1_100_000_000,
                0 <= vps as int <= 61_069_865_835_317,
        ;
    }
    let prod: i128 = factor * (vps as i128);
    proof {
        lemma_trunc_div_ratio(prod as int, 100_000_000, 1_000_000_000_000_000_000);
    }
    Ok((prod / 100_000_000) as i64)
}

} // verus!
