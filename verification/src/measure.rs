//! Fixed-point measurements.
//!
//! Every physical quantity the library handles (temperatures, speeds,
//! heights, pressures) is carried as a [`Milli`]: a signed count of
//! thousandths of the canonical unit.  Reductions and unit conversions are
//! exact integer arithmetic with a single, explicit rounding rule,
//! [`round_div`]: quotients round to the nearest thousandth, halves away
//! from zero.

use vstd::prelude::*;
use vstd::arithmetic::div_mod::lemma_fundamental_div_mod;

verus! {

/// A fixed-point number with three decimal places: `value` counts
/// thousandths of the unit, so `Milli { value: 20_500 }` is `20.5`.
#[derive(Clone, Copy, PartialEq, Eq, Structural, Debug)]
pub struct Milli {
    pub value: i64,
}

impl View for Milli {
    type V = int;

    open spec fn view(&self) -> int {
        self.value as int
    }
}

impl Milli {
    /// The value with exactly `value` thousandths.
    pub fn new(value: i64) -> (r: Milli)
        ensures
            r@ == value as int,
    {
        Milli { value }
    }

    /// The value `units.000`.
    pub fn of_whole(units: i64) -> (r: Milli)
        requires
            -9_223_372_036_854_775 <= units <= 9_223_372_036_854_775,
        ensures
            r@ == 1000 * units,
    {
        Milli { value: units * 1000 }
    }
}

/// The magnitude of `a`.
pub open spec fn abs_int(a: int) -> int {
    if a < 0 {
        -a
    } else {
        a
    }
}

/// `a / b` rounded to the nearest integer, halves away from zero.
pub open spec fn round_div(a: int, b: int) -> int
    recommends
        b > 0,
{
    let q = abs_int(a) / b;
    let r = abs_int(a) % b;
    let rounded = if 2 * r >= b {
        q + 1
    } else {
        q
    };
    if a < 0 {
        -rounded
    } else {
        rounded
    }
}

/// A rounded quotient is no larger in magnitude than any bound `m` that
/// dominates the dividend: if `|a| <= b * m` then `|round_div(a, b)| <= m`.
pub proof fn lemma_round_div_bound(a: int, b: int, m: int)
    requires
        b > 0,
        m >= 0,
        abs_int(a) <= b * m,
    ensures
        abs_int(round_div(a, b)) <= m,
{
    let x = abs_int(a);
    let q = x / b;
    let r = x % b;
    lemma_fundamental_div_mod(x, b);
    vstd::arithmetic::div_mod::lemma_mod_bound(x, b);
    assert(x == b * q + r);
    if q > m {
        assert(b * q >= b * (m + 1)) by (nonlinear_arith)
            requires
                b > 0 && q >= m + 1,
        ;
        assert(b * (m + 1) == b * m + b) by (nonlinear_arith);
        assert(false);
    }
    if q == m && r > 0 {
        assert(x > b * m);
        assert(false);
    }
}

/// A rounded quotient stays inside any bracket that contains the
/// dividend: if `lo * b <= a <= hi * b` then `lo <= round_div(a, b) <= hi`.
/// In particular the mean of values drawn from a range stays in that
/// range.
pub proof fn lemma_round_div_range(a: int, b: int, lo: int, hi: int)
    requires
        b > 0,
        lo * b <= a,
        a <= hi * b,
    ensures
        lo <= round_div(a, b),
        round_div(a, b) <= hi,
{
    let x = abs_int(a);
    let q = x / b;
    let r = x % b;
    lemma_fundamental_div_mod(x, b);
    vstd::arithmetic::div_mod::lemma_mod_bound(x, b);
    assert(x == b * q + r);
    if a >= 0 {
        // round_div(a, b) is q or q + 1.
        assert(hi >= 0) by (nonlinear_arith)
            requires
                b > 0 && hi * b >= 0,
        ;
        if q > hi {
            assert(b * q >= b * (hi + 1)) by (nonlinear_arith)
                requires
                    b > 0 && q >= hi + 1,
            ;
            assert(b * (hi + 1) == hi * b + b) by (nonlinear_arith);
            assert(false);
        }
        if q == hi && r > 0 {
            assert(x > hi * b) by (nonlinear_arith)
                requires
                    x == b * q + r && q == hi && r > 0,
            ;
            assert(false);
        }
        if lo > 0 && q < lo {
            assert(x < lo * b) by (nonlinear_arith)
                requires
                    x == b * q + r && r < b && b > 0 && q <= lo - 1,
            ;
            assert(false);
        }
    } else {
        // round_div(a, b) is -q or -(q + 1), with x == -a.
        assert(lo <= 0) by (nonlinear_arith)
            requires
                b > 0 && lo * b <= a && a < 0,
        ;
        assert(x <= (-lo) * b) by (nonlinear_arith)
            requires
                lo * b <= a && x == -a,
        ;
        if q > -lo {
            assert(b * q >= b * (-lo + 1)) by (nonlinear_arith)
                requires
                    b > 0 && q >= -lo + 1,
            ;
            assert(b * ((-lo) + 1) == (-lo) * b + b) by (nonlinear_arith);
            assert(false);
        }
        if q == -lo && r > 0 {
            assert(x > (-lo) * b) by (nonlinear_arith)
                requires
                    x == b * q + r && q == -lo && r > 0,
            ;
            assert(false);
        }
        if hi < 0 && q < -hi {
            assert(x < (-hi) * b) by (nonlinear_arith)
                requires
                    x == b * q + r && r < b && b > 0 && q <= (-hi) - 1,
            ;
            assert(a > hi * b) by (nonlinear_arith)
                requires
                    x < (-hi) * b && x == -a,
            ;
            assert(false);
        }
    }
}

/// `u / v` rounded to the nearest integer, halves up, on machine words.
/// This is the executable form of [`round_div`] for non-negative dividends.
fn round_div_u128(u: u128, v: u128) -> (r: u128)
    requires
        v > 0,
        u < 0x7fff_ffff_ffff_ffff_ffff_ffff_ffff_ffff,
    ensures
        r as int == round_div(u as int, v as int),
{
    let q = u / v;
    let rem = u % v;
    if rem >= v - rem {
        q + 1
    } else {
        q
    }
}

/// `a / b` rounded to the nearest integer, halves away from zero, on a
/// signed dividend.
pub fn round_div_i128(a: i128, b: u128) -> (r: i128)
    requires
        b > 0,
        abs_int(a as int) < 0x4000_0000_0000_0000_0000_0000_0000_0000,
    ensures
        r as int == round_div(a as int, b as int),
{
    if a < 0 {
        let m: u128 = (-a) as u128;
        let q = round_div_u128(m, b);
        proof {
            assert(abs_int(m as int) <= b * m) by (nonlinear_arith)
                requires
                    b >= 1 && m >= 0,
            ;
            lemma_round_div_bound(m as int, b as int, m as int);
        }
        -(q as i128)
    } else {
        let q = round_div_u128(a as u128, b);
        proof {
            let m = a as int;
            assert(abs_int(m) <= b * m) by (nonlinear_arith)
                requires
                    b >= 1 && m >= 0,
            ;
            lemma_round_div_bound(m, b as int, m);
        }
        q as i128
    }
}

/// Converts a temperature in thousandths of a degree Fahrenheit to
/// thousandths of a degree Celsius by the exact formula
/// `(F - 32) * 5 / 9`, rounded to the nearest thousandth.
pub fn fahrenheit_to_celsius(f: Milli) -> (r: Milli)
    ensures
        r@ == round_div(5 * (f@ - 32_000), 9),
{
    let scaled: i128 = 5 * (f.value as i128 - 32_000);
    let q = round_div_i128(scaled, 9);
    proof {
        lemma_round_div_bound(scaled as int, 9, 6_000_000_000_000_000_000);
    }
    Milli { value: q as i64 }
}

/// Converts a speed in thousandths of a kilometer per hour to
/// thousandths of a meter per second, by the exact ratio `1000 m` per
/// `3600 s`, rounded to the nearest thousandth.
pub fn kmh_to_mps(v: Milli) -> (r: Milli)
    ensures
        r@ == round_div(1000 * v@, 3600),
{
    let scaled: i128 = 1000 * (v.value as i128);
    let q = round_div_i128(scaled, 3600);
    proof {
        lemma_round_div_bound(scaled as int, 3600, 9_223_372_036_854_775_807);
    }
    Milli { value: q as i64 }
}

/// Converts a speed in thousandths of a mile per hour to thousandths of a
/// meter per second, using the exact factor `0.44704 m/s` per `mph`,
/// rounded to the nearest thousandth.
pub fn mph_to_mps(v: Milli) -> (r: Milli)
    ensures
        r@ == round_div(44_704 * v@, 100_000),
{
    let scaled: i128 = 44_704 * (v.value as i128);
    let q = round_div_i128(scaled, 100_000);
    proof {
        lemma_round_div_bound(scaled as int, 100_000, 9_223_372_036_854_775_807);
    }
    Milli { value: q as i64 }
}

} // verus!
