//! Fixed-rate mortgage amortization.
//!
//! The fixed-point analogue of the standard formulas: the compounding factor
//! `(1 + r)^n` becomes the recursive [`growth_factor`], built from the same
//! saturating multiply-divide step the executable code performs, so each
//! executable function is proved to return exactly its spec-level model.

use vstd::prelude::*;

use crate::money::MONEY_MAX;
use crate::money::SCALE;
use crate::money::cmul_div;
use crate::money::div_pos;
use crate::money::mul_div_clamped;

verus! {

/// Largest supported year count: keeps `years * 12` within `u32`.
pub const MAX_YEARS: u32 = 357_913_941;

/// Monthly fractional rate (scaled by `SCALE`) of an annual percentage rate
/// (also scaled by `SCALE`): `annual / 100 / 12`.
pub open spec fn monthly_rate_of(annual: int) -> int {
    annual / 1200
}

/// Fixed-point `(1 + rate)^n`, scaled by `SCALE`: `n` saturating
/// multiply-divide steps, exactly as the executable code compounds.
pub open spec fn growth_factor(rate: int, n: nat) -> int
    decreases n,
{
    if n == 0 {
        SCALE as int
    } else {
        cmul_div(growth_factor(rate, (n - 1) as nat), SCALE + rate, SCALE as int)
    }
}

/// The growth factor stays within `[SCALE, MONEY_MAX]`, and exceeds `SCALE`
/// after at least one step of a positive rate.
pub proof fn lemma_growth_factor_bounds(rate: int, n: nat)
    requires
        0 <= rate <= MONEY_MAX,
    ensures
        SCALE <= growth_factor(rate, n) <= MONEY_MAX,
        1 <= rate && 1 <= n ==> SCALE + 1 <= growth_factor(rate, n),
    decreases n,
{
    if n != 0 {
        lemma_growth_factor_bounds(rate, (n - 1) as nat);
        let g = growth_factor(rate, (n - 1) as nat);
        assert(g * (SCALE as int) <= g * (SCALE + rate)) by (nonlinear_arith)
            requires
                0 <= rate,
                0 <= g,
        ;
        vstd::arithmetic::div_mod::lemma_div_is_ordered(
            g * (SCALE as int),
            g * (SCALE + rate),
            SCALE as int,
        );
        vstd::arithmetic::div_mod::lemma_div_by_multiple(g, SCALE as int);
        if n == 1 {
            assert(g * (SCALE + rate) == (SCALE as int) * (SCALE + rate));
            vstd::arithmetic::div_mod::lemma_div_multiples_vanish(SCALE + rate, SCALE as int);
        }
    }
}

fn growth_factor_exec(rate: i64, n: u32) -> (g: i64)
    requires
        0 <= rate <= MONEY_MAX,
    ensures
        g == growth_factor(rate as int, n as nat),
        SCALE <= g <= MONEY_MAX,
    decreases n,
{
    let mut g: i64 = SCALE;
    let mut k: u32 = 0;
    while k < n
        invariant
            0 <= rate <= MONEY_MAX,
            k <= n,
            g == growth_factor(rate as int, k as nat),
            SCALE <= g <= MONEY_MAX,
        decreases n - k,
    {
        g = mul_div_clamped(g, SCALE + rate, SCALE);
        k = k + 1;
        proof {
            lemma_growth_factor_bounds(rate as int, k as nat);
        }
    }
    g
}

/// Fixed-point monthly payment of a fully amortizing loan: straight-line
/// `principal / n` when the monthly rate truncates to zero, else
/// `principal * r * (1+r)^n / ((1+r)^n - 1)` over the growth factor.
pub open spec fn spec_monthly_payment(principal: int, annual_rate: int, years: int) -> int {
    let n = years * 12;
    let r = monthly_rate_of(annual_rate);
    if r == 0 {
        principal / n
    } else {
        let g = growth_factor(r, n as nat);
        cmul_div(cmul_div(principal, r, SCALE as int), g, g - SCALE)
    }
}

/// Fixed-point outstanding principal after `months_paid` payments: exactly 0
/// once the term is over, `max(0, principal - payment * months_paid)` at zero
/// rate, else `principal * (1+r)^m - payment * ((1+r)^m - 1) / r`, floored at
/// zero.
pub open spec fn spec_remaining_balance(
    principal: int,
    annual_rate: int,
    years: int,
    months_paid: int,
) -> int {
    let n = years * 12;
    let r = monthly_rate_of(annual_rate);
    if months_paid >= n {
        0
    } else if r == 0 {
        let pay = principal / n;
        if principal - pay * months_paid >= 0 {
            principal - pay * months_paid
        } else {
            0
        }
    } else {
        let pay = spec_monthly_payment(principal, annual_rate, years);
        let g = growth_factor(r, months_paid as nat);
        let t1 = cmul_div(principal, g, SCALE as int);
        let t2 = cmul_div(pay, g - SCALE, r);
        if t1 >= t2 {
            t1 - t2
        } else {
            0
        }
    }
}

/// Monthly mortgage payment by the standard amortization formula; at zero
/// annual rate the payment is exactly `principal / (years * 12)`.
pub fn calculate_monthly_payment(principal: i64, annual_rate: i64, years: u32) -> (payment: i64)
    requires
        0 <= principal <= MONEY_MAX,
        0 <= annual_rate <= MONEY_MAX,
        1 <= years <= MAX_YEARS,
    ensures
        payment == spec_monthly_payment(principal as int, annual_rate as int, years as int),
        0 <= payment <= MONEY_MAX,
        annual_rate == 0 ==> payment == principal as int / ((years as int) * 12),
{
    let n: u32 = years * 12;
    let r: i64 = div_pos(annual_rate, 1200);
    if r == 0 {
        div_pos(principal, n as i64)
    } else {
        let g = growth_factor_exec(r, n);
        proof {
            lemma_growth_factor_bounds(r as int, n as nat);
        }
        let t = mul_div_clamped(principal, r, SCALE);
        mul_div_clamped(t, g, g - SCALE)
    }
}

/// Outstanding mortgage principal after `months_paid` months; exactly 0 once
/// `months_paid` reaches the full term, and never negative.
pub fn remaining_balance(principal: i64, annual_rate: i64, years: u32, months_paid: u32) -> (b:
    i64)
    requires
        0 <= principal <= MONEY_MAX,
        0 <= annual_rate <= MONEY_MAX,
        1 <= years <= MAX_YEARS,
    ensures
        b == spec_remaining_balance(
            principal as int,
            annual_rate as int,
            years as int,
            months_paid as int,
        ),
        0 <= b <= MONEY_MAX,
        months_paid >= years * 12 ==> b == 0,
{
    let n: u32 = years * 12;
    if months_paid >= n {
        return 0;
    }
    let r: i64 = div_pos(annual_rate, 1200);
    if r == 0 {
        let pay = div_pos(principal, n as i64);
        proof {
            assert((pay as int) * (months_paid as int) <= u128::MAX) by (nonlinear_arith)
                requires
                    0 <= pay < 0x8000_0000_0000_0000,
                    0 <= months_paid < 0x1_0000_0000,
            ;
        }
        let prod: u128 = (pay as u128) * (months_paid as u128);
        if (principal as u128) >= prod {
            (principal as u128 - prod) as i64
        } else {
            0
        }
    } else {
        let pay = calculate_monthly_payment(principal, annual_rate, years);
        let g = growth_factor_exec(r, months_paid);
        let t1 = mul_div_clamped(principal, g, SCALE);
        let t2 = mul_div_clamped(pay, g - SCALE, r);
        if t1 >= t2 {
            t1 - t2
        } else {
            0
        }
    }
}

} // verus!
