//! Fixed-point scalar arithmetic.
//!
//! Every scalar quantity in this crate (angles, distances, speeds,
//! motion deltas) is an `i64` counting thousandths of a unit, so the
//! camera logic is exact integer arithmetic. A product of two scalars
//! is the wide integer product scaled back down by [`SCALE`], rounding
//! toward zero.

use vstd::prelude::*;
use vstd::arithmetic::div_mod::lemma_div_multiples_vanish;
use vstd::arithmetic::div_mod::lemma_fundamental_div_mod;

verus! {

/// Number of fixed-point steps in one whole unit: scalars count thousandths.
pub const SCALE: i64 = 1000;

/// A fixed-point scalar: an `i64` counting thousandths of a unit.
pub type Scalar = i64;

/// Holds when a mathematical integer fits the executable scalar type.
pub open spec fn fits(x: int) -> bool {
    i64::MIN <= x <= i64::MAX
}

/// The exact value of a fixed-point product: the wide product `a * b`
/// scaled back down by `SCALE`, rounded toward zero.
pub open spec fn mul_value(a: int, b: int) -> int {
    if a * b >= 0 {
        (a * b) / (SCALE as int)
    } else {
        -((-(a * b)) / (SCALE as int))
    }
}

/// Fixed-point product of two scalars, exact per `mul_value`.
pub fn fp_mul(a: i64, b: i64) -> (r: i64)
    requires
        fits(mul_value(a as int, b as int)),
    ensures
        r as int == mul_value(a as int, b as int),
{
    proof {
        assert((a as int) * (b as int) <= 0x4000_0000_0000_0000_0000_0000_0000_0000
            && (a as int) * (b as int) >= -0x4000_0000_0000_0000_0000_0000_0000_0000)
            by (nonlinear_arith)
            requires
                -0x8000_0000_0000_0000 <= a as int <= 0x7fff_ffff_ffff_ffff,
                -0x8000_0000_0000_0000 <= b as int <= 0x7fff_ffff_ffff_ffff;
    }
    let p: i128 = (a as i128) * (b as i128);
    if p >= 0 {
        let q: u128 = (p as u128) / (SCALE as u128);
        q as i64
    } else {
        let m: u128 = (-p) as u128;
        let q: u128 = m / (SCALE as u128);
        (-(q as i128)) as i64
    }
}

/// A product that `SCALE` divides is scaled down with nothing lost:
/// multiplying the fixed-point product back up recovers the wide product.
pub proof fn lemma_mul_value_exact(a: int, b: int)
    requires
        (a * b) % (SCALE as int) == 0,
    ensures
        mul_value(a, b) * (SCALE as int) == a * b,
{
    let s = SCALE as int;
    let p = a * b;
    lemma_fundamental_div_mod(p, s);
    if p < 0 {
        assert(-p == s * (-(p / s)));
        lemma_div_multiples_vanish(-(p / s), s);
    }
}

/// Doubling one factor of an exactly divisible product doubles the
/// fixed-point product.
pub proof fn lemma_mul_value_double(a: int, b: int)
    requires
        (a * b) % (SCALE as int) == 0,
    ensures
        mul_value(2 * a, b) == 2 * mul_value(a, b),
        mul_value(a, 2 * b) == 2 * mul_value(a, b),
{
    let s = SCALE as int;
    lemma_mul_value_exact(a, b);
    let q = mul_value(a, b);
    assert((2 * a) * b == s * (2 * q) && a * (2 * b) == s * (2 * q)) by (nonlinear_arith)
        requires q * s == a * b;
    lemma_fundamental_div_mod((2 * a) * b, s);
    assert(((2 * a) * b) % s == 0) by {
        lemma_div_multiples_vanish(2 * q, s);
    }
    assert(mul_value(2 * a, b) == 2 * q) by {
        lemma_mul_value_exact(2 * a, b);
        assert(mul_value(2 * a, b) * s == (2 * q) * s) by (nonlinear_arith)
            requires mul_value(2 * a, b) * s == (2 * a) * b, (2 * a) * b == s * (2 * q);
        assert(mul_value(2 * a, b) == 2 * q) by (nonlinear_arith)
            requires mul_value(2 * a, b) * s == (2 * q) * s, s > 0;
    }
    assert((a * (2 * b)) % s == 0) by {
        lemma_fundamental_div_mod(a * (2 * b), s);
        lemma_div_multiples_vanish(2 * q, s);
    }
    assert(mul_value(a, 2 * b) == 2 * q) by {
        lemma_mul_value_exact(a, 2 * b);
        assert(mul_value(a, 2 * b) * s == (2 * q) * s) by (nonlinear_arith)
            requires mul_value(a, 2 * b) * s == a * (2 * b), a * (2 * b) == s * (2 * q);
        assert(mul_value(a, 2 * b) == 2 * q) by (nonlinear_arith)
            requires mul_value(a, 2 * b) * s == (2 * q) * s, s > 0;
    }
}

/// A fixed-point product with a zero factor is zero.
pub proof fn lemma_mul_value_zero(a: int, b: int)
    ensures
        mul_value(0, b) == 0,
        mul_value(a, 0) == 0,
{
    let s = SCALE as int;
    lemma_div_multiples_vanish(0, s);
}

} // verus!
