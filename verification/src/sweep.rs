//! Sensitivity sweep: re-run the whole simulation while varying exactly one
//! input field across a range, holding all others fixed.
//!
//! The swept field is a closed enumeration, so every sample re-runs the
//! engine on a well-defined input record; the two whole-year fields truncate
//! the swept fixed-point value to whole years.

use vstd::prelude::*;

use crate::amortization::MAX_YEARS;
use crate::engine::Inputs;
use crate::engine::calculate;
use crate::engine::spec_difference;
use crate::engine::valid_inputs;
use crate::money::MONEY_MAX;
use crate::money::SCALE;
use crate::money::div_pos;

verus! {

/// The sixteen sweepable input fields.
#[derive(Clone, Copy, Debug, PartialEq, Eq)]
pub enum SweepField {
    HomePrice,
    DownPaymentPercent,
    MortgageRate,
    LoanTermYears,
    PropertyTaxRate,
    HomeInsurance,
    HoaMonthly,
    MaintenancePercent,
    HomeAppreciation,
    ClosingCostPercent,
    SellingCostPercent,
    MonthlyRent,
    RentIncreaseRate,
    RentersInsurance,
    InvestmentReturn,
    TimeHorizonYears,
}

/// The input record with one field overwritten by the swept value; year
/// fields are truncated, not rounded.
pub open spec fn spec_set_field(i: Inputs, f: SweepField, v: int) -> Inputs {
    match f {
        SweepField::HomePrice => Inputs { home_price: v as i64, ..i },
        SweepField::DownPaymentPercent => Inputs { down_payment_percent: v as i64, ..i },
        SweepField::MortgageRate => Inputs { mortgage_rate: v as i64, ..i },
        SweepField::LoanTermYears => Inputs {
            loan_term_years: (v / (SCALE as int)) as u32,
            ..i
        },
        SweepField::PropertyTaxRate => Inputs { property_tax_rate: v as i64, ..i },
        SweepField::HomeInsurance => Inputs { home_insurance: v as i64, ..i },
        SweepField::HoaMonthly => Inputs { hoa_monthly: v as i64, ..i },
        SweepField::MaintenancePercent => Inputs { maintenance_percent: v as i64, ..i },
        SweepField::HomeAppreciation => Inputs { home_appreciation: v as i64, ..i },
        SweepField::ClosingCostPercent => Inputs { closing_cost_percent: v as i64, ..i },
        SweepField::SellingCostPercent => Inputs { selling_cost_percent: v as i64, ..i },
        SweepField::MonthlyRent => Inputs { monthly_rent: v as i64, ..i },
        SweepField::RentIncreaseRate => Inputs { rent_increase_rate: v as i64, ..i },
        SweepField::RentersInsurance => Inputs { renters_insurance: v as i64, ..i },
        SweepField::InvestmentReturn => Inputs { investment_return: v as i64, ..i },
        SweepField::TimeHorizonYears => Inputs {
            time_horizon_years: (v / (SCALE as int)) as u32,
            ..i
        },
    }
}

/// A swept value that keeps the input record in the supported range; home
/// appreciation is the one field that may go negative, down to -100%.
pub open spec fn field_value_ok(f: SweepField, v: int) -> bool {
    match f {
        SweepField::DownPaymentPercent => 0 <= v <= 100 * SCALE,
        SweepField::HomeAppreciation => -100 * SCALE <= v <= MONEY_MAX,
        SweepField::LoanTermYears => 0 <= v <= MONEY_MAX && 1 <= v / (SCALE as int) <= MAX_YEARS,
        SweepField::TimeHorizonYears => 0 <= v <= MONEY_MAX && 1 <= v / (SCALE as int)
            <= MAX_YEARS,
        _ => 0 <= v <= MONEY_MAX,
    }
}

/// Overwriting one field with an in-range value keeps the inputs valid.
pub proof fn lemma_set_field_valid(i: Inputs, f: SweepField, v: int)
    requires
        valid_inputs(i),
        field_value_ok(f, v),
    ensures
        valid_inputs(spec_set_field(i, f, v)),
{
}

/// Any value between two in-range sweep bounds is itself in range.
pub proof fn lemma_field_value_ok_between(f: SweepField, lo: int, v: int, hi: int)
    requires
        field_value_ok(f, lo),
        field_value_ok(f, hi),
        lo <= v <= hi,
    ensures
        field_value_ok(f, v),
{
    vstd::arithmetic::div_mod::lemma_div_is_ordered(lo, v, SCALE as int);
    vstd::arithmetic::div_mod::lemma_div_is_ordered(v, hi, SCALE as int);
}

fn set_field(i: &Inputs, field: SweepField, value: i64) -> (m: Inputs)
    requires
        field_value_ok(field, value as int),
    ensures
        m == spec_set_field(*i, field, value as int),
{
    let mut m = *i;
    match field {
        SweepField::HomePrice => {
            m.home_price = value;
        },
        SweepField::DownPaymentPercent => {
            m.down_payment_percent = value;
        },
        SweepField::MortgageRate => {
            m.mortgage_rate = value;
        },
        SweepField::LoanTermYears => {
            m.loan_term_years = div_pos(value, SCALE) as u32;
        },
        SweepField::PropertyTaxRate => {
            m.property_tax_rate = value;
        },
        SweepField::HomeInsurance => {
            m.home_insurance = value;
        },
        SweepField::HoaMonthly => {
            m.hoa_monthly = value;
        },
        SweepField::MaintenancePercent => {
            m.maintenance_percent = value;
        },
        SweepField::HomeAppreciation => {
            m.home_appreciation = value;
        },
        SweepField::ClosingCostPercent => {
            m.closing_cost_percent = value;
        },
        SweepField::SellingCostPercent => {
            m.selling_cost_percent = value;
        },
        SweepField::MonthlyRent => {
            m.monthly_rent = value;
        },
        SweepField::RentIncreaseRate => {
            m.rent_increase_rate = value;
        },
        SweepField::RentersInsurance => {
            m.renters_insurance = value;
        },
        SweepField::InvestmentReturn => {
            m.investment_return = value;
        },
        SweepField::TimeHorizonYears => {
            m.time_horizon_years = div_pos(value, SCALE) as u32;
        },
    }
    m
}

/// The outcome (buy net worth minus rent net worth) after overwriting one
/// input field with the given value and re-running the full simulation.
pub fn calculate_difference_for_value(inputs: &Inputs, field: SweepField, value: i64) -> (d: i64)
    requires
        valid_inputs(*inputs),
        field_value_ok(field, value as int),
    ensures
        d == spec_difference(spec_set_field(*inputs, field, value as int)),
{
    let modified = set_field(inputs, field, value);
    proof {
        lemma_set_field_valid(*inputs, field, value as int);
    }
    let result = calculate(&modified);
    result.difference
}

/// The `k`-th of `steps + 1` evenly spaced samples over `[min, max]`.
pub open spec fn spec_sample_value(min: int, max: int, steps: int, k: int) -> int {
    min + ((max - min) * k) / steps
}

/// Sweep one input field over `[min, max]` in `steps + 1` evenly spaced
/// samples, both endpoints included, re-running the full simulation for each
/// sample and reporting `(value, difference)` pairs in order.
pub fn generate_sensitivity_data(
    inputs: &Inputs,
    field: SweepField,
    min: i64,
    max: i64,
    steps: usize,
) -> (samples: Vec<(i64, i64)>)
    requires
        valid_inputs(*inputs),
        field_value_ok(field, min as int),
        field_value_ok(field, max as int),
        min <= max,
        1 <= steps < usize::MAX,
    ensures
        samples@.len() == steps + 1,
        forall|k: int|
            0 <= k <= steps ==> {
                &&& (#[trigger] samples@[k]).0 == spec_sample_value(
                    min as int,
                    max as int,
                    steps as int,
                    k,
                )
                &&& samples@[k].1 == spec_difference(
                    spec_set_field(
                        *inputs,
                        field,
                        spec_sample_value(min as int, max as int, steps as int, k),
                    ),
                )
            },
        samples@[0].0 == min,
        samples@[steps as int].0 == max,
{
    let range: i64 = max - min;
    let mut samples: Vec<(i64, i64)> = Vec::new();
    let mut k: usize = 0;
    while k <= steps
        invariant
            valid_inputs(*inputs),
            field_value_ok(field, min as int),
            field_value_ok(field, max as int),
            min <= max,
            1 <= steps < usize::MAX,
            range == max - min,
            k <= steps + 1,
            samples@.len() == k,
            forall|j: int|
                0 <= j < k ==> {
                    &&& (#[trigger] samples@[j]).0 == spec_sample_value(
                        min as int,
                        max as int,
                        steps as int,
                        j,
                    )
                    &&& samples@[j].1 == spec_difference(
                        spec_set_field(
                            *inputs,
                            field,
                            spec_sample_value(min as int, max as int, steps as int, j),
                        ),
                    )
                },
        decreases steps + 1 - k,
    {
        proof {
            assert((range as int) * (k as int) <= u128::MAX) by (nonlinear_arith)
                requires
                    0 <= range < 0x8000_0000_0000_0000,
                    0 <= k < 0x1_0000_0000_0000_0000,
            ;
            assert((range as int) * (k as int) <= (range as int) * (steps as int))
                by (nonlinear_arith)
                requires
                    0 <= range,
                    0 <= k <= steps,
            ;
            vstd::arithmetic::div_mod::lemma_div_is_ordered(
                (range as int) * (k as int),
                (range as int) * (steps as int),
                steps as int,
            );
            vstd::arithmetic::div_mod::lemma_div_by_multiple(range as int, steps as int);
            vstd::arithmetic::mul::lemma_mul_nonnegative(range as int, k as int);
            vstd::arithmetic::div_mod::lemma_div_pos_is_pos(
                (range as int) * (k as int),
                steps as int,
            );
        }
        let q: u128 = (range as u128) * (k as u128) / (steps as u128);
        let value: i64 = min + (q as i64);
        proof {
            lemma_field_value_ok_between(field, min as int, value as int, max as int);
        }
        let diff = calculate_difference_for_value(inputs, field, value);
        samples.push((value, diff));
        k = k + 1;
    }
    proof {
        vstd::arithmetic::div_mod::lemma_div_by_multiple(range as int, steps as int);
        assert(spec_sample_value(min as int, max as int, steps as int, 0) == min);
        assert(spec_sample_value(min as int, max as int, steps as int, steps as int) == max);
    }
    samples
}

} // verus!
