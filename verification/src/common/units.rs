//! Lengths on the command line are decimal numbers of millimetres; the
//! library counts in whole units. This is the rule that takes one to the
//! other.

use vstd::prelude::*;

use vstd::arithmetic::div_mod::{lemma_div_multiples_vanish, lemma_div_multiples_vanish_quotient};

use crate::common::UNITS_PER_MM;

verus! {

/// Largest scale of a decimal number that is read: the number of digits
/// behind the decimal point.
pub const MAX_SCALE: u32 = 28;

/// Ten to the power of `e`.
pub open spec fn pow10(e: nat) -> int
    decreases e,
{
    if e == 0 {
        1
    } else {
        10 * pow10((e - 1) as nat)
    }
}

/// Quotient of `a` by the positive `b`, rounded toward zero.
pub open spec fn trunc_div(a: int, b: int) -> int {
    if a >= 0 {
        a / b
    } else {
        -((-a) / b)
    }
}

/// The length of `mantissa / 10^scale` millimetres in units, rounded
/// toward zero.
pub open spec fn decimal_units(mantissa: int, scale: nat) -> int {
    trunc_div(mantissa * UNITS_PER_MM, pow10(scale))
}

/// Powers of ten are positive and grow with the exponent.
pub proof fn lemma_pow10_increases(e1: nat, e2: nat)
    requires
        e1 <= e2,
    ensures
        1 <= pow10(e1) <= pow10(e2),
    decreases e2,
{
    if e2 > 0 {
        if e1 < e2 {
            lemma_pow10_increases(e1, (e2 - 1) as nat);
        } else {
            lemma_pow10_increases((e1 - 1) as nat, (e2 - 1) as nat);
        }
    }
}

/// With three or more digits behind the point, the digits beyond the third
/// are cut off: the mantissa is divided by the power of ten that they make.
pub proof fn lemma_decimal_units_divides(mantissa: int, scale: nat)
    requires
        scale >= 3,
    ensures
        decimal_units(mantissa, scale) == trunc_div(mantissa, pow10((scale - 3) as nat)),
{
    let k = (scale - 3) as nat;
    let p = pow10(k);
    lemma_pow10_increases(0, k);
    assert(pow10(scale) == 1000 * p) by {
        assert(pow10((k + 1) as nat) == 10 * pow10(k));
        assert(pow10((k + 2) as nat) == 10 * pow10((k + 1) as nat));
        assert(pow10((k + 3) as nat) == 10 * pow10((k + 2) as nat));
    }
    if mantissa >= 0 {
        lemma_div_multiples_vanish_quotient(1000, mantissa, p);
    } else {
        lemma_div_multiples_vanish_quotient(1000, -mantissa, p);
        assert(-(mantissa * 1000) == 1000 * (-mantissa));
    }
}

/// With up to three digits behind the point nothing is cut off: the
/// mantissa is multiplied by the power of ten that is missing.
pub proof fn lemma_decimal_units_multiplies(mantissa: int, scale: nat)
    requires
        scale <= 3,
    ensures
        decimal_units(mantissa, scale) == mantissa * pow10((3 - scale) as nat),
{
    reveal_with_fuel(pow10, 4);
    let up = pow10((3 - scale) as nat);
    let down = pow10(scale);
    assert(up * down == 1000 && down >= 1) by {
        assert(pow10(0) == 1 && pow10(1) == 10 && pow10(2) == 100 && pow10(3) == 1000);
    }
    assert(mantissa * UNITS_PER_MM == (mantissa * up) * down) by (nonlinear_arith)
        requires
            up * down == 1000,
            UNITS_PER_MM == 1000,
    ;
    lemma_trunc_div_exact(mantissa * up, down);
}

/// A multiple of the divisor is divided without a rest.
pub proof fn lemma_trunc_div_exact(q: int, b: int)
    requires
        b > 0,
    ensures
        trunc_div(q * b, b) == q,
{
    if q >= 0 {
        assert(q * b >= 0 && q * b == b * q) by (nonlinear_arith)
            requires
                q >= 0,
                b > 0,
        ;
        lemma_div_multiples_vanish(q, b);
    } else {
        assert(-(q * b) == b * (-q) && q * b < 0) by (nonlinear_arith)
            requires
                q < 0,
                b > 0,
        ;
        lemma_div_multiples_vanish(-q, b);
    }
}

/// Ten to the power of `e`.
fn power_of_ten(e: u32) -> (p: i128)
    requires
        e <= MAX_SCALE,
    ensures
        p == pow10(e as nat),
{
    let mut p: i128 = 1;
    let mut i: u32 = 0;
    while i < e
        invariant
            i <= e <= MAX_SCALE,
            p == pow10(i as nat),
        decreases e - i,
    {
        proof {
            lemma_pow10_increases(i as nat, 28);
            assert(pow10(28) == 10_000_000_000_000_000_000_000_000_000) by {
                reveal_with_fuel(pow10, 29);
            }
        }
        p = p * 10;
        i = i + 1;
    }
    p
}

/// The length in units of the decimal number `mantissa / 10^scale` of
/// millimetres, rounded toward zero; nothing if the scale is beyond
/// [`MAX_SCALE`] or the length is beyond what a coordinate can hold.
pub fn units_from_decimal(mantissa: i128, scale: u32) -> (r: Option<i64>)
    ensures
        r is Some <==> scale <= MAX_SCALE && i64::MIN <= decimal_units(
            mantissa as int,
            scale as nat,
        ) <= i64::MAX,
        r matches Some(units) ==> units == decimal_units(mantissa as int, scale as nat),
{
    if scale > MAX_SCALE {
        return None;
    }
    let units: i128 = if scale <= 3 {
        proof {
            lemma_decimal_units_multiplies(mantissa as int, scale as nat);
        }
        let factor = power_of_ten(3 - scale);
        proof {
            lemma_pow10_increases((3 - scale) as nat, 3);
            reveal_with_fuel(pow10, 4);
        }
        match mantissa.checked_mul(factor) {
            Some(units) => units,
            None => {
                return None;
            },
        }
    } else {
        proof {
            lemma_decimal_units_divides(mantissa as int, scale as nat);
            lemma_pow10_increases(0, (scale - 3) as nat);
        }
        mantissa / power_of_ten(scale - 3)
    };
    if i64::MIN as i128 <= units && units <= i64::MAX as i128 {
        Some(units as i64)
    } else {
        None
    }
}

} // verus!
