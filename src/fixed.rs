//! Fixed-point arithmetic shared by the integrators.
//!
//! Lengths are held in thousandths of a world unit, times in microseconds and
//! dimensionless ratios (restitution) in thousandths. Every intermediate
//! product is formed in `i128`, which holds the product of any two `i64`
//! values, and every result is saturated back into the `i64` range.
use vstd::prelude::*;
use vstd::arithmetic::div_mod::{lemma_div_nonincreasing, lemma_div_pos_is_pos};

verus! {

/// Sub-units in one world unit (lengths are stored in thousandths).
pub const SUBUNITS_PER_UNIT: i64 = 1000;

/// Microseconds in one second (time steps are given in microseconds).
pub const MICROS_PER_SECOND: i64 = 1_000_000;

/// The stored value of a ratio of one (restitution is stored in thousandths).
pub const RATIO_ONE: i64 = 1000;

/// Velocity retained after a bottom collision in the explicit integrator: 97/100.
pub const FRICTION_NUM: i64 = 97;

pub const FRICTION_DEN: i64 = 100;

/// `x` saturated into the range of `i64`.
pub open spec fn sat(x: int) -> int {
    if x < i64::MIN {
        i64::MIN as int
    } else if x > i64::MAX {
        i64::MAX as int
    } else {
        x
    }
}

/// Quotient rounded toward zero, as Rust's integer division rounds.
pub open spec fn tdiv(a: int, b: int) -> int {
    if a >= 0 {
        a / b
    } else {
        -((-a) / b)
    }
}

/// `a * num / den`, rounded toward zero and saturated.
pub open spec fn mul_div(a: int, num: int, den: int) -> int {
    sat(tdiv(a * num, den))
}

proof fn lemma_product_fits(a: int, b: int)
    requires
        i64::MIN <= a <= i64::MAX,
        i64::MIN <= b <= i64::MAX,
    ensures
        -0x4000_0000_0000_0000_0000_0000_0000_0000 <= a * b <= 0x4000_0000_0000_0000_0000_0000_0000_0000,
{
    assert(-0x4000_0000_0000_0000_0000_0000_0000_0000 <= a * b <= 0x4000_0000_0000_0000_0000_0000_0000_0000)
        by (nonlinear_arith)
        requires
            -0x8000_0000_0000_0000 <= a <= 0x7fff_ffff_ffff_ffff,
            -0x8000_0000_0000_0000 <= b <= 0x7fff_ffff_ffff_ffff,
    ;
}

pub(crate) fn clamp_wide(x: i128) -> (r: i64)
    ensures
        r == sat(x as int),
{
    if x < i64::MIN as i128 {
        i64::MIN
    } else if x > i64::MAX as i128 {
        i64::MAX
    } else {
        x as i64
    }
}

pub(crate) fn add_sat(a: i64, b: i64) -> (r: i64)
    ensures
        r == sat(a + b),
{
    clamp_wide(a as i128 + b as i128)
}

pub(crate) fn sub_sat(a: i64, b: i64) -> (r: i64)
    ensures
        r == sat(a - b),
{
    clamp_wide(a as i128 - b as i128)
}

pub(crate) fn mul_sat(a: i64, b: i64) -> (r: i64)
    ensures
        r == sat(a * b),
{
    proof {
        lemma_product_fits(a as int, b as int);
    }
    clamp_wide(a as i128 * b as i128)
}

fn div_trunc(a: i128, b: i128) -> (r: i128)
    requires
        a > i128::MIN,
        b > 0,
    ensures
        r == tdiv(a as int, b as int),
        a >= 0 ==> 0 <= r <= a,
        a < 0 ==> a <= r <= 0,
{
    if a >= 0 {
        proof {
            lemma_div_nonincreasing(a as int, b as int);
            lemma_div_pos_is_pos(a as int, b as int);
        }
        a / b
    } else {
        let n: i128 = -a;
        proof {
            lemma_div_nonincreasing(n as int, b as int);
            lemma_div_pos_is_pos(n as int, b as int);
        }
        -(n / b)
    }
}

pub(crate) fn mul_div_sat(a: i64, num: i64, den: i64) -> (r: i64)
    requires
        den > 0,
    ensures
        r == mul_div(a as int, num as int, den as int),
{
    proof {
        lemma_product_fits(a as int, num as int);
    }
    clamp_wide(div_trunc(a as i128 * num as i128, den as i128))
}

/// A velocity component reflected off a wall: negated and scaled by the
/// restitution, which is given in thousandths.
pub open spec fn reflected(v: int, restitution: int) -> int {
    sat(-tdiv(v * restitution, RATIO_ONE as int))
}

pub(crate) fn reflect(v: i64, restitution: i64) -> (r: i64)
    ensures
        r == reflected(v as int, restitution as int),
{
    proof {
        lemma_product_fits(v as int, restitution as int);
    }
    let q = div_trunc(v as i128 * restitution as i128, RATIO_ONE as i128);
    clamp_wide(-q)
}

} // verus!
