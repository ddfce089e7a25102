//! Saturating fixed-point arithmetic for money amounts and rates.
//!
//! A quantity is an `i64` holding `SCALE` units per dollar (or per percent,
//! for rates). Every operation clamps its mathematical result into
//! `[-MONEY_MAX, MONEY_MAX]`, so the operations are total and the exact value
//! of each one is stated by the `clamped` spec functions below.

use vstd::prelude::*;

verus! {

/// One dollar (or one percent, for rate fields) in fixed-point units.
pub const SCALE: i64 = 1_000_000_000;

/// Saturation bound for every fixed-point quantity.
pub const MONEY_MAX: i64 = 0x3fff_ffff_ffff_ffff;

/// The argument held to `[-MONEY_MAX, MONEY_MAX]`.
pub open spec fn clamped(x: int) -> int {
    if x > MONEY_MAX {
        MONEY_MAX as int
    } else if x < -MONEY_MAX {
        -MONEY_MAX as int
    } else {
        x
    }
}

/// Saturating addition.
pub open spec fn cadd(a: int, b: int) -> int {
    clamped(a + b)
}

/// Saturating subtraction.
pub open spec fn csub(a: int, b: int) -> int {
    clamped(a - b)
}

/// Saturating `a * b / d`, the basic scaling step of fixed-point arithmetic.
pub open spec fn cmul_div(a: int, b: int, d: int) -> int {
    clamped((a * b) / d)
}

fn clamp_i128(x: i128) -> (r: i64)
    ensures
        r == clamped(x as int),
{
    if x > MONEY_MAX as i128 {
        MONEY_MAX
    } else if x < -MONEY_MAX as i128 {
        -MONEY_MAX
    } else {
        x as i64
    }
}

pub fn add_clamped(a: i64, b: i64) -> (r: i64)
    ensures
        r == cadd(a as int, b as int),
{
    clamp_i128(a as i128 + b as i128)
}

pub fn sub_clamped(a: i64, b: i64) -> (r: i64)
    ensures
        r == csub(a as int, b as int),
{
    clamp_i128(a as i128 - b as i128)
}

/// Saturating `assets + invest - debt - costs`, the net-worth combination.
pub fn combine_clamped(assets: i64, invest: i64, debt: i64, costs: i64) -> (r: i64)
    ensures
        r == clamped(assets - debt - costs + invest),
{
    clamp_i128(assets as i128 - debt as i128 - costs as i128 + invest as i128)
}

pub fn mul_div_clamped(a: i64, b: i64, d: i64) -> (r: i64)
    requires
        0 <= a,
        0 <= b,
        1 <= d,
    ensures
        r == cmul_div(a as int, b as int, d as int),
        0 <= r,
{
    proof {
        assert((a as int) * (b as int) <= u128::MAX) by (nonlinear_arith)
            requires
                0 <= a < 0x8000_0000_0000_0000,
                0 <= b < 0x8000_0000_0000_0000,
        ;
    }
    let p: u128 = (a as u128) * (b as u128);
    let q: u128 = p / (d as u128);
    if q > MONEY_MAX as u128 {
        MONEY_MAX
    } else {
        q as i64
    }
}

/// A saturating multiply-divide of nonnegative operands stays in
/// `[0, MONEY_MAX]`.
pub proof fn lemma_cmul_div_nonneg(a: int, b: int, d: int)
    requires
        0 <= a,
        0 <= b,
        1 <= d,
    ensures
        0 <= cmul_div(a, b, d) <= MONEY_MAX,
{
    vstd::arithmetic::mul::lemma_mul_nonnegative(a, b);
    vstd::arithmetic::div_mod::lemma_div_pos_is_pos(a * b, d);
}

/// A quotient of nonnegative operands is at most the dividend.
pub proof fn lemma_div_nonneg(a: int, d: int)
    requires
        0 <= a,
        1 <= d,
    ensures
        0 <= a / d <= a,
{
    vstd::arithmetic::div_mod::lemma_div_pos_is_pos(a, d);
    vstd::arithmetic::div_mod::lemma_div_nonincreasing(a, d);
}

/// Exact division of a nonnegative amount by a positive divisor.
pub fn div_pos(a: i64, d: i64) -> (r: i64)
    requires
        0 <= a,
        1 <= d,
    ensures
        r == a as int / d as int,
        0 <= r <= a,
{
    let q: u64 = (a as u64) / (d as u64);
    proof {
        vstd::arithmetic::div_mod::lemma_div_nonincreasing(a as int, d as int);
        vstd::arithmetic::div_mod::lemma_div_pos_is_pos(a as int, d as int);
    }
    q as i64
}

} // verus!
