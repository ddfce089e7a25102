//! The simulation engine: a deterministic month-by-month projection of a
//! "buy" and a "rent" scenario under one shared monthly budget.
//!
//! The mathematical model is the recursive [`state_at`]: fifteen running
//! quantities advanced one month at a time by [`step_state`], using exactly
//! the saturating fixed-point steps the executable loop performs. The
//! contract of [`calculate`] pins every field of the result to that model.

use vstd::prelude::*;

use crate::amortization::MAX_YEARS;
use crate::amortization::calculate_monthly_payment;
use crate::amortization::monthly_rate_of;
use crate::amortization::remaining_balance;
use crate::amortization::spec_monthly_payment;
use crate::amortization::spec_remaining_balance;
use crate::money::MONEY_MAX;
use crate::money::SCALE;
use crate::money::add_clamped;
use crate::money::cadd;
use crate::money::clamped;
use crate::money::cmul_div;
use crate::money::combine_clamped;
use crate::money::csub;
use crate::money::div_pos;
use crate::money::lemma_cmul_div_nonneg;
use crate::money::lemma_div_nonneg;
use crate::money::mul_div_clamped;
use crate::money::sub_clamped;

verus! {

/// The input record: money amounts in fixed-point dollars, rates in
/// fixed-point percent (a field value of `SCALE` means one dollar or 1%),
/// terms in whole years.
#[derive(Clone, Copy, Debug, PartialEq)]
pub struct Inputs {
    pub home_price: i64,
    pub down_payment_percent: i64,
    pub mortgage_rate: i64,
    pub loan_term_years: u32,
    pub property_tax_rate: i64,
    pub home_insurance: i64,
    pub hoa_monthly: i64,
    pub maintenance_percent: i64,
    pub home_appreciation: i64,
    pub closing_cost_percent: i64,
    pub selling_cost_percent: i64,
    pub monthly_rent: i64,
    pub rent_increase_rate: i64,
    pub renters_insurance: i64,
    pub investment_return: i64,
    pub time_horizon_years: u32,
}

/// Net worth of both scenarios at the end of a simulated year.
#[derive(Clone, Copy, Debug, PartialEq)]
pub struct YearlySnapshot {
    pub year: u32,
    pub buy_net_worth: i64,
    pub rent_net_worth: i64,
}

/// Accumulated totals of the buy scenario over the full horizon.
#[derive(Clone, Copy, Debug, PartialEq)]
pub struct BuyBreakdown {
    pub down_payment: i64,
    pub closing_costs: i64,
    pub total_mortgage_payments: i64,
    pub total_interest_paid: i64,
    pub total_principal_paid: i64,
    pub total_property_tax: i64,
    pub total_insurance: i64,
    pub total_hoa: i64,
    pub total_maintenance: i64,
    pub selling_costs: i64,
    pub final_home_value: i64,
    pub remaining_mortgage: i64,
    pub monthly_savings_invested: i64,
    pub investment_returns: i64,
    pub investment_balance: i64,
    pub net_worth: i64,
}

/// Accumulated totals of the rent scenario over the full horizon.
#[derive(Clone, Copy, Debug, PartialEq)]
pub struct RentBreakdown {
    pub initial_investment: i64,
    pub total_rent_paid: i64,
    pub total_renters_insurance: i64,
    pub monthly_cost_savings: i64,
    pub investment_returns: i64,
    pub final_investment_value: i64,
    pub net_worth: i64,
}

/// Horizon-averaged monthly cost of each scenario.
#[derive(Clone, Copy, Debug, PartialEq)]
pub struct MonthlyCostComparison {
    pub avg_buy_monthly: i64,
    pub avg_rent_monthly: i64,
    pub avg_monthly_difference: i64,
}

/// Horizon-averaged monthly figures of where the money goes.
#[derive(Clone, Copy, Debug, PartialEq)]
pub struct MonthlyBreakdown {
    pub buy_mortgage: i64,
    pub buy_property_tax: i64,
    pub buy_insurance: i64,
    pub buy_hoa: i64,
    pub buy_maintenance: i64,
    pub buy_total: i64,
    pub rent_payment: i64,
    pub rent_insurance: i64,
    pub rent_total: i64,
}

/// The full outcome of one simulation run.
#[derive(Clone, Debug, PartialEq)]
pub struct CalculationResult {
    pub buy_breakdown: BuyBreakdown,
    pub rent_breakdown: RentBreakdown,
    pub monthly_comparison: MonthlyCostComparison,
    pub monthly_breakdown: MonthlyBreakdown,
    pub difference: i64,
    pub yearly_snapshots: Vec<YearlySnapshot>,
}

/// The supported input range: nonnegative fixed-point amounts, a down
/// payment of at most 100%, at least one year of loan term and horizon, and
/// a home appreciation anywhere from -100% (a collapsing market) upward.
pub open spec fn valid_inputs(i: Inputs) -> bool {
    &&& 0 <= i.home_price <= MONEY_MAX
    &&& 0 <= i.down_payment_percent <= 100 * SCALE
    &&& 0 <= i.mortgage_rate <= MONEY_MAX
    &&& 1 <= i.loan_term_years <= MAX_YEARS
    &&& 0 <= i.property_tax_rate <= MONEY_MAX
    &&& 0 <= i.home_insurance <= MONEY_MAX
    &&& 0 <= i.hoa_monthly <= MONEY_MAX
    &&& 0 <= i.maintenance_percent <= MONEY_MAX
    &&& -100 * SCALE <= i.home_appreciation <= MONEY_MAX
    &&& 0 <= i.closing_cost_percent <= MONEY_MAX
    &&& 0 <= i.selling_cost_percent <= MONEY_MAX
    &&& 0 <= i.monthly_rent <= MONEY_MAX
    &&& 0 <= i.rent_increase_rate <= MONEY_MAX
    &&& 0 <= i.renters_insurance <= MONEY_MAX
    &&& 0 <= i.investment_return <= MONEY_MAX
    &&& 1 <= i.time_horizon_years <= MAX_YEARS
}

/// Default inputs: a 400 000 home, 20% down at 6.5% over 30 years, renting
/// at 2 000 a month, a 10-year horizon.
pub open spec fn spec_default_inputs() -> Inputs {
    Inputs {
        home_price: 400_000_000_000_000,
        down_payment_percent: 20_000_000_000,
        mortgage_rate: 6_500_000_000,
        loan_term_years: 30,
        property_tax_rate: 1_200_000_000,
        home_insurance: 1_500_000_000_000,
        hoa_monthly: 0,
        maintenance_percent: 1_000_000_000,
        home_appreciation: 3_000_000_000,
        closing_cost_percent: 3_000_000_000,
        selling_cost_percent: 6_000_000_000,
        monthly_rent: 2_000_000_000_000,
        rent_increase_rate: 3_000_000_000,
        renters_insurance: 200_000_000_000,
        investment_return: 7_000_000_000,
        time_horizon_years: 10,
    }
}

impl Default for Inputs {
    fn default() -> (d: Self)
        ensures
            d == spec_default_inputs(),
            valid_inputs(d),
    {
        Inputs {
            home_price: 400_000_000_000_000,
            down_payment_percent: 20_000_000_000,
            mortgage_rate: 6_500_000_000,
            loan_term_years: 30,
            property_tax_rate: 1_200_000_000,
            home_insurance: 1_500_000_000_000,
            hoa_monthly: 0,
            maintenance_percent: 1_000_000_000,
            home_appreciation: 3_000_000_000,
            closing_cost_percent: 3_000_000_000,
            selling_cost_percent: 6_000_000_000,
            monthly_rent: 2_000_000_000_000,
            rent_increase_rate: 3_000_000_000,
            renters_insurance: 200_000_000_000,
            investment_return: 7_000_000_000,
            time_horizon_years: 10,
        }
    }
}

/// Down payment: `home_price * down_payment_percent / 100`.
pub open spec fn spec_down_payment(i: Inputs) -> int {
    cmul_div(i.home_price as int, i.down_payment_percent as int, 100 * (SCALE as int))
}

/// Closing costs: `home_price * closing_cost_percent / 100`.
pub open spec fn spec_closing_costs(i: Inputs) -> int {
    cmul_div(i.home_price as int, i.closing_cost_percent as int, 100 * (SCALE as int))
}

/// The financed principal: price minus down payment.
pub open spec fn spec_loan_amount(i: Inputs) -> int {
    i.home_price - spec_down_payment(i)
}

/// The renter's starting capital: down payment plus closing costs.
pub open spec fn spec_initial_investment(i: Inputs) -> int {
    cadd(spec_down_payment(i), spec_closing_costs(i))
}

/// The buyer's fixed monthly mortgage payment.
pub open spec fn spec_payment(i: Inputs) -> int {
    spec_monthly_payment(spec_loan_amount(i), i.mortgage_rate as int, i.loan_term_years as int)
}

/// Number of simulated months.
pub open spec fn spec_total_months(i: Inputs) -> int {
    (i.time_horizon_years as int) * 12
}

/// The running state of the simulation, one value per tracked quantity.
pub ghost struct SimState {
    pub home_value: int,
    pub rent: int,
    pub buyer_balance: int,
    pub buyer_contrib: int,
    pub renter_balance: int,
    pub renter_contrib: int,
    pub total_mortgage: int,
    pub total_tax: int,
    pub total_insurance: int,
    pub total_hoa: int,
    pub total_maintenance: int,
    pub total_buy_costs: int,
    pub total_rent_paid: int,
    pub total_renters_insurance: int,
    pub total_rent_costs: int,
}

/// State before the first month: the renter holds the capital a buyer would
/// have sunk into the purchase, and every running total is zero.
pub open spec fn init_state(i: Inputs) -> SimState {
    SimState {
        home_value: i.home_price as int,
        rent: i.monthly_rent as int,
        buyer_balance: 0,
        buyer_contrib: 0,
        renter_balance: spec_initial_investment(i),
        renter_contrib: 0,
        total_mortgage: 0,
        total_tax: 0,
        total_insurance: 0,
        total_hoa: 0,
        total_maintenance: 0,
        total_buy_costs: 0,
        total_rent_paid: 0,
        total_renters_insurance: 0,
        total_rent_costs: 0,
    }
}

/// One simulated month `m` (1-based): costs are charged, the home
/// appreciates, both investment balances grow and the cheaper side banks the
/// cost difference; every 12th month the rent takes its annual increase.
pub open spec fn step_state(i: Inputs, s: SimState, m: int) -> SimState {
    let mortgage = if m <= (i.loan_term_years as int) * 12 {
        spec_payment(i)
    } else {
        0
    };
    let tax = cmul_div(s.home_value, i.property_tax_rate as int, 1200 * (SCALE as int));
    let maint = cmul_div(s.home_value, i.maintenance_percent as int, 1200 * (SCALE as int));
    let home_ins = (i.home_insurance as int) / 12;
    let rent_ins = (i.renters_insurance as int) / 12;
    let buy_cost = cadd(
        cadd(cadd(cadd(mortgage, tax), home_ins), i.hoa_monthly as int),
        maint,
    );
    let rent_cost = cadd(s.rent, rent_ins);
    let inv_rate = monthly_rate_of(i.investment_return as int);
    let buyer_grown = cmul_div(s.buyer_balance, SCALE + inv_rate, SCALE as int);
    let renter_grown = cmul_div(s.renter_balance, SCALE + inv_rate, SCALE as int);
    let buyer_deposit = if buy_cost < rent_cost {
        rent_cost - buy_cost
    } else {
        0
    };
    let renter_deposit = if buy_cost < rent_cost {
        0
    } else {
        buy_cost - rent_cost
    };
    SimState {
        home_value: cmul_div(
            s.home_value,
            SCALE + monthly_rate_of(i.home_appreciation as int),
            SCALE as int,
        ),
        rent: if m % 12 == 0 {
            cmul_div(s.rent, 100 * (SCALE as int) + i.rent_increase_rate, 100 * (SCALE as int))
        } else {
            s.rent
        },
        buyer_balance: cadd(buyer_grown, buyer_deposit),
        buyer_contrib: cadd(s.buyer_contrib, buyer_deposit),
        renter_balance: cadd(renter_grown, renter_deposit),
        renter_contrib: cadd(s.renter_contrib, renter_deposit),
        total_mortgage: cadd(s.total_mortgage, mortgage),
        total_tax: cadd(s.total_tax, tax),
        total_insurance: cadd(s.total_insurance, home_ins),
        total_hoa: cadd(s.total_hoa, i.hoa_monthly as int),
        total_maintenance: cadd(s.total_maintenance, maint),
        total_buy_costs: cadd(s.total_buy_costs, buy_cost),
        total_rent_paid: cadd(s.total_rent_paid, s.rent),
        total_renters_insurance: cadd(s.total_renters_insurance, rent_ins),
        total_rent_costs: cadd(s.total_rent_costs, rent_cost),
    }
}

/// The simulation state after `m` months.
pub open spec fn state_at(i: Inputs, m: nat) -> SimState
    decreases m,
{
    if m == 0 {
        init_state(i)
    } else {
        step_state(i, state_at(i, (m - 1) as nat), m as int)
    }
}

/// Every tracked quantity lies in `[0, MONEY_MAX]`.
pub open spec fn state_ok(s: SimState) -> bool {
    &&& 0 <= s.home_value <= MONEY_MAX
    &&& 0 <= s.rent <= MONEY_MAX
    &&& 0 <= s.buyer_balance <= MONEY_MAX
    &&& 0 <= s.buyer_contrib <= MONEY_MAX
    &&& 0 <= s.renter_balance <= MONEY_MAX
    &&& 0 <= s.renter_contrib <= MONEY_MAX
    &&& 0 <= s.total_mortgage <= MONEY_MAX
    &&& 0 <= s.total_tax <= MONEY_MAX
    &&& 0 <= s.total_insurance <= MONEY_MAX
    &&& 0 <= s.total_hoa <= MONEY_MAX
    &&& 0 <= s.total_maintenance <= MONEY_MAX
    &&& 0 <= s.total_buy_costs <= MONEY_MAX
    &&& 0 <= s.total_rent_paid <= MONEY_MAX
    &&& 0 <= s.total_renters_insurance <= MONEY_MAX
    &&& 0 <= s.total_rent_costs <= MONEY_MAX
}

/// Bounds on the quantities derived from a valid input record.
pub proof fn lemma_input_parts(i: Inputs)
    requires
        valid_inputs(i),
    ensures
        0 <= spec_down_payment(i) <= i.home_price,
        0 <= spec_closing_costs(i) <= MONEY_MAX,
        0 <= spec_loan_amount(i) <= MONEY_MAX,
        0 <= spec_initial_investment(i) <= MONEY_MAX,
        0 <= spec_payment(i) <= MONEY_MAX,
{
    let hp = i.home_price as int;
    let d = 100 * (SCALE as int);
    lemma_cmul_div_nonneg(hp, i.down_payment_percent as int, d);
    lemma_cmul_div_nonneg(hp, i.closing_cost_percent as int, d);
    assert(hp * (i.down_payment_percent as int) <= hp * d) by (nonlinear_arith)
        requires
            0 <= hp,
            0 <= i.down_payment_percent as int <= d,
    ;
    vstd::arithmetic::div_mod::lemma_div_is_ordered(
        hp * (i.down_payment_percent as int),
        hp * d,
        d,
    );
    vstd::arithmetic::div_mod::lemma_div_by_multiple(hp, d);
    let loan = spec_loan_amount(i);
    let r = monthly_rate_of(i.mortgage_rate as int);
    lemma_div_nonneg(i.mortgage_rate as int, 1200);
    if r == 0 {
        lemma_div_nonneg(loan, (i.loan_term_years as int) * 12);
    } else {
        lemma_cmul_div_nonneg(loan, r, SCALE as int);
        crate::amortization::lemma_growth_factor_bounds(
            r,
            ((i.loan_term_years as int) * 12) as nat,
        );
        lemma_cmul_div_nonneg(
            cmul_div(loan, r, SCALE as int),
            crate::amortization::growth_factor(r, ((i.loan_term_years as int) * 12) as nat),
            crate::amortization::growth_factor(r, ((i.loan_term_years as int) * 12) as nat)
                - SCALE,
        );
    }
}

/// Months of payments counted after `m` elapsed months: capped at the term.
pub open spec fn spec_months_paid(i: Inputs, m: int) -> int {
    let term = (i.loan_term_years as int) * 12;
    if m <= term {
        m
    } else {
        term
    }
}

/// Outstanding mortgage after `m` elapsed months of the simulation.
pub open spec fn spec_remaining_after(i: Inputs, m: int) -> int {
    spec_remaining_balance(
        spec_loan_amount(i),
        i.mortgage_rate as int,
        i.loan_term_years as int,
        spec_months_paid(i, m),
    )
}

/// Buy-side net worth at the end of year `y`: home value minus remaining
/// mortgage and hypothetical selling costs, plus the buyer's banked savings.
pub open spec fn spec_snapshot_buy_net_worth(i: Inputs, y: int) -> int {
    let s = state_at(i, (12 * y) as nat);
    let rem = spec_remaining_after(i, 12 * y);
    let sell = cmul_div(s.home_value, i.selling_cost_percent as int, 100 * (SCALE as int));
    clamped(s.home_value - rem - sell + s.buyer_balance)
}

/// Rent-side net worth at the end of year `y`: the renter's balance.
pub open spec fn spec_snapshot_rent_net_worth(i: Inputs, y: int) -> int {
    state_at(i, (12 * y) as nat).renter_balance
}

/// The simulation state at the end of the horizon.
pub open spec fn spec_final_state(i: Inputs) -> SimState {
    state_at(i, spec_total_months(i) as nat)
}

pub open spec fn spec_final_remaining(i: Inputs) -> int {
    spec_remaining_after(i, spec_total_months(i))
}

pub open spec fn spec_final_selling(i: Inputs) -> int {
    cmul_div(spec_final_state(i).home_value, i.selling_cost_percent as int, 100 * (SCALE as int))
}

/// Final buy-side net worth.
pub open spec fn spec_buy_net_worth(i: Inputs) -> int {
    clamped(
        spec_final_state(i).home_value - spec_final_remaining(i) - spec_final_selling(i)
            + spec_final_state(i).buyer_balance,
    )
}

/// Final rent-side net worth.
pub open spec fn spec_rent_net_worth(i: Inputs) -> int {
    spec_final_state(i).renter_balance
}

/// The signed outcome: positive favors buying.
pub open spec fn spec_difference(i: Inputs) -> int {
    spec_buy_net_worth(i) - spec_rent_net_worth(i)
}

pub open spec fn spec_total_principal_paid(i: Inputs) -> int {
    csub(spec_loan_amount(i), spec_final_remaining(i))
}

/// The full contract of [`calculate`]: every field of the result equals its
/// spec-level model, and the snapshots cover years 1 through the horizon.
pub open spec fn calculate_matches(i: Inputs, r: CalculationResult) -> bool {
    let fs = spec_final_state(i);
    let months = spec_total_months(i);
    &&& r.buy_breakdown.down_payment == spec_down_payment(i)
    &&& r.buy_breakdown.closing_costs == spec_closing_costs(i)
    &&& r.buy_breakdown.total_mortgage_payments == fs.total_mortgage
    &&& r.buy_breakdown.total_interest_paid == csub(
        fs.total_mortgage,
        spec_total_principal_paid(i),
    )
    &&& r.buy_breakdown.total_principal_paid == spec_total_principal_paid(i)
    &&& r.buy_breakdown.total_property_tax == fs.total_tax
    &&& r.buy_breakdown.total_insurance == fs.total_insurance
    &&& r.buy_breakdown.total_hoa == fs.total_hoa
    &&& r.buy_breakdown.total_maintenance == fs.total_maintenance
    &&& r.buy_breakdown.selling_costs == spec_final_selling(i)
    &&& r.buy_breakdown.final_home_value == fs.home_value
    &&& r.buy_breakdown.remaining_mortgage == spec_final_remaining(i)
    &&& r.buy_breakdown.monthly_savings_invested == fs.buyer_contrib
    &&& r.buy_breakdown.investment_returns == csub(fs.buyer_balance, fs.buyer_contrib)
    &&& r.buy_breakdown.investment_balance == fs.buyer_balance
    &&& r.buy_breakdown.net_worth == spec_buy_net_worth(i)
    &&& r.rent_breakdown.initial_investment == spec_initial_investment(i)
    &&& r.rent_breakdown.total_rent_paid == fs.total_rent_paid
    &&& r.rent_breakdown.total_renters_insurance == fs.total_renters_insurance
    &&& r.rent_breakdown.monthly_cost_savings == fs.renter_contrib
    &&& r.rent_breakdown.investment_returns == csub(
        csub(fs.renter_balance, spec_initial_investment(i)),
        fs.renter_contrib,
    )
    &&& r.rent_breakdown.final_investment_value == fs.renter_balance
    &&& r.rent_breakdown.net_worth == spec_rent_net_worth(i)
    &&& r.monthly_comparison.avg_buy_monthly == fs.total_buy_costs / months
    &&& r.monthly_comparison.avg_rent_monthly == fs.total_rent_costs / months
    &&& r.monthly_comparison.avg_monthly_difference == fs.total_buy_costs / months
        - fs.total_rent_costs / months
    &&& r.monthly_breakdown.buy_mortgage == fs.total_mortgage / months
    &&& r.monthly_breakdown.buy_property_tax == fs.total_tax / months
    &&& r.monthly_breakdown.buy_insurance == fs.total_insurance / months
    &&& r.monthly_breakdown.buy_hoa == fs.total_hoa / months
    &&& r.monthly_breakdown.buy_maintenance == fs.total_maintenance / months
    &&& r.monthly_breakdown.buy_total == fs.total_buy_costs / months
    &&& r.monthly_breakdown.rent_payment == fs.total_rent_paid / months
    &&& r.monthly_breakdown.rent_insurance == fs.total_renters_insurance / months
    &&& r.monthly_breakdown.rent_total == fs.total_rent_costs / months
    &&& r.difference == spec_difference(i)
    &&& r.yearly_snapshots@.len() == i.time_horizon_years
    &&& forall|y: int|
        0 <= y < i.time_horizon_years ==> {
            &&& (#[trigger] r.yearly_snapshots@[y]).year == y + 1
            &&& r.yearly_snapshots@[y].buy_net_worth == spec_snapshot_buy_net_worth(i, y + 1)
            &&& r.yearly_snapshots@[y].rent_net_worth == spec_snapshot_rent_net_worth(i, y + 1)
        }
}

/// The monthly appreciation factor `1 + appreciation/100/12` (scaled by
/// `SCALE`) stays nonnegative for annual rates down to -100%, and equals
/// the single floor division the executable code performs.
pub proof fn lemma_appreciation_factor(i: Inputs)
    requires
        valid_inputs(i),
    ensures
        0 <= SCALE + monthly_rate_of(i.home_appreciation as int),
        (1200 * (SCALE as int) + i.home_appreciation) / 1200 == SCALE + monthly_rate_of(
            i.home_appreciation as int,
        ),
{
    vstd::arithmetic::div_mod::lemma_div_multiples_vanish(-(SCALE as int), 1200);
    vstd::arithmetic::div_mod::lemma_div_is_ordered(
        1200 * -(SCALE as int),
        i.home_appreciation as int,
        1200,
    );
    vstd::arithmetic::div_mod::lemma_hoist_over_denominator(
        i.home_appreciation as int,
        SCALE as int,
        1200,
    );
}

/// The simulation state stays within bounds for every month.
pub proof fn lemma_state_ok(i: Inputs, m: nat)
    requires
        valid_inputs(i),
    ensures
        state_ok(state_at(i, m)),
    decreases m,
{
    lemma_input_parts(i);
    if m != 0 {
        lemma_state_ok(i, (m - 1) as nat);
        let s = state_at(i, (m - 1) as nat);
        let d = 1200 * (SCALE as int);
        lemma_cmul_div_nonneg(s.home_value, i.property_tax_rate as int, d);
        lemma_cmul_div_nonneg(s.home_value, i.maintenance_percent as int, d);
        lemma_div_nonneg(i.home_insurance as int, 12);
        lemma_div_nonneg(i.renters_insurance as int, 12);
        lemma_div_nonneg(i.investment_return as int, 1200);
        lemma_appreciation_factor(i);
        let inv_rate = monthly_rate_of(i.investment_return as int);
        lemma_cmul_div_nonneg(s.buyer_balance, SCALE + inv_rate, SCALE as int);
        lemma_cmul_div_nonneg(s.renter_balance, SCALE + inv_rate, SCALE as int);
        lemma_cmul_div_nonneg(
            s.home_value,
            SCALE + monthly_rate_of(i.home_appreciation as int),
            SCALE as int,
        );
        lemma_cmul_div_nonneg(
            s.rent,
            100 * (SCALE as int) + i.rent_increase_rate,
            100 * (SCALE as int),
        );
    }
}

/// Determinism: the contract of [`calculate`] pins every field of the
/// result, so two runs on identical inputs agree everywhere — the engine
/// keeps no hidden state.
pub proof fn lemma_calculate_deterministic(
    i: Inputs,
    r1: CalculationResult,
    r2: CalculationResult,
)
    requires
        calculate_matches(i, r1),
        calculate_matches(i, r2),
    ensures
        r1.buy_breakdown == r2.buy_breakdown,
        r1.rent_breakdown == r2.rent_breakdown,
        r1.monthly_comparison == r2.monthly_comparison,
        r1.monthly_breakdown == r2.monthly_breakdown,
        r1.difference == r2.difference,
        r1.yearly_snapshots@ == r2.yearly_snapshots@,
{
    assert(r1.yearly_snapshots@ =~= r2.yearly_snapshots@) by {
        assert forall|k: int|
            0 <= k < r1.yearly_snapshots@.len() implies r1.yearly_snapshots@[k]
            == r2.yearly_snapshots@[k] by {
            assert(r1.yearly_snapshots@[k].year == k + 1);
            assert(r2.yearly_snapshots@[k].year == k + 1);
        }
    }
}

/// Run the full buy-versus-rent simulation over the input horizon.
///
/// The result's `difference` is exactly `buy net worth - rent net worth`,
/// the snapshots cover years 1 through the horizon in order, and every
/// monthly average equals its accumulated total divided by the number of
/// simulated months.
#[verifier::loop_isolation(false)]
#[verifier::rlimit(60)]
pub fn calculate(inputs: &Inputs) -> (r: CalculationResult)
    requires
        valid_inputs(*inputs),
    ensures
        calculate_matches(*inputs, r),
        r.difference == r.buy_breakdown.net_worth - r.rent_breakdown.net_worth,
        r.yearly_snapshots@.len() == inputs.time_horizon_years,
{
    let i = *inputs;
    proof {
        lemma_input_parts(i);
    }
    let down_payment = mul_div_clamped(i.home_price, i.down_payment_percent, 100 * SCALE);
    let closing_costs = mul_div_clamped(i.home_price, i.closing_cost_percent, 100 * SCALE);
    let loan_amount = i.home_price - down_payment;
    let initial_investment = add_clamped(down_payment, closing_costs);

    let monthly_mortgage = calculate_monthly_payment(loan_amount, i.mortgage_rate, i.loan_term_years);
    let monthly_home_insurance = div_pos(i.home_insurance, 12);
    let monthly_renters_insurance = div_pos(i.renters_insurance, 12);
    let monthly_investment_return = div_pos(i.investment_return, 1200);
    proof {
        lemma_appreciation_factor(i);
    }
    let appreciation_factor = div_pos(1200 * SCALE + i.home_appreciation, 1200);

    let term_months: u32 = i.loan_term_years * 12;
    let total_months: u32 = i.time_horizon_years * 12;

    let mut total_mortgage_payments: i64 = 0;
    let mut total_property_tax: i64 = 0;
    let mut total_home_insurance: i64 = 0;
    let mut total_hoa: i64 = 0;
    let mut total_maintenance: i64 = 0;
    let mut current_home_value: i64 = i.home_price;
    let mut total_buy_monthly_costs: i64 = 0;

    let mut buyer_investment_balance: i64 = 0;
    let mut buyer_total_contributions: i64 = 0;

    let mut total_rent_paid: i64 = 0;
    let mut total_renters_insurance: i64 = 0;
    let mut current_rent: i64 = i.monthly_rent;
    let mut total_rent_monthly_costs: i64 = 0;

    let mut renter_investment_balance: i64 = initial_investment;
    let mut renter_monthly_contributions: i64 = 0;

    let mut yearly_snapshots: Vec<YearlySnapshot> = Vec::new();

    let mut month: u32 = 1;
    while month <= total_months
        invariant
            1 <= month <= total_months + 1,
            yearly_snapshots@.len() == ((month - 1) as int) / 12,
            forall|y: int|
                0 <= y < yearly_snapshots@.len() ==> {
                    &&& (#[trigger] yearly_snapshots@[y]).year == y + 1
                    &&& yearly_snapshots@[y].buy_net_worth == spec_snapshot_buy_net_worth(
                        i,
                        y + 1,
                    )
                    &&& yearly_snapshots@[y].rent_net_worth == spec_snapshot_rent_net_worth(
                        i,
                        y + 1,
                    )
                },
            current_home_value == state_at(i, (month - 1) as nat).home_value,
            current_rent == state_at(i, (month - 1) as nat).rent,
            buyer_investment_balance == state_at(i, (month - 1) as nat).buyer_balance,
            buyer_total_contributions == state_at(i, (month - 1) as nat).buyer_contrib,
            renter_investment_balance == state_at(i, (month - 1) as nat).renter_balance,
            renter_monthly_contributions == state_at(i, (month - 1) as nat).renter_contrib,
            total_mortgage_payments == state_at(i, (month - 1) as nat).total_mortgage,
            total_property_tax == state_at(i, (month - 1) as nat).total_tax,
            total_home_insurance == state_at(i, (month - 1) as nat).total_insurance,
            total_hoa == state_at(i, (month - 1) as nat).total_hoa,
            total_maintenance == state_at(i, (month - 1) as nat).total_maintenance,
            total_buy_monthly_costs == state_at(i, (month - 1) as nat).total_buy_costs,
            total_rent_paid == state_at(i, (month - 1) as nat).total_rent_paid,
            total_renters_insurance == state_at(i, (month - 1) as nat).total_renters_insurance,
            total_rent_monthly_costs == state_at(i, (month - 1) as nat).total_rent_costs,
        decreases total_months + 1 - month,
    {
        let ghost prev = state_at(i, (month - 1) as nat);
        proof {
            lemma_state_ok(i, (month - 1) as nat);
        }
        let mortgage_this_month: i64 = if month <= term_months {
            monthly_mortgage
        } else {
            0
        };
        let property_tax_this_month = mul_div_clamped(
            current_home_value,
            i.property_tax_rate,
            1200 * SCALE,
        );
        let maintenance_this_month = mul_div_clamped(
            current_home_value,
            i.maintenance_percent,
            1200 * SCALE,
        );
        let buy_monthly_cost = add_clamped(
            add_clamped(
                add_clamped(
                    add_clamped(mortgage_this_month, property_tax_this_month),
                    monthly_home_insurance,
                ),
                i.hoa_monthly,
            ),
            maintenance_this_month,
        );
        let rent_monthly_cost = add_clamped(current_rent, monthly_renters_insurance);

        total_buy_monthly_costs = add_clamped(total_buy_monthly_costs, buy_monthly_cost);
        total_rent_monthly_costs = add_clamped(total_rent_monthly_costs, rent_monthly_cost);

        total_mortgage_payments = add_clamped(total_mortgage_payments, mortgage_this_month);
        total_property_tax = add_clamped(total_property_tax, property_tax_this_month);
        total_home_insurance = add_clamped(total_home_insurance, monthly_home_insurance);
        total_hoa = add_clamped(total_hoa, i.hoa_monthly);
        total_maintenance = add_clamped(total_maintenance, maintenance_this_month);
        current_home_value = mul_div_clamped(current_home_value, appreciation_factor, SCALE);

        total_rent_paid = add_clamped(total_rent_paid, current_rent);
        total_renters_insurance = add_clamped(total_renters_insurance, monthly_renters_insurance);

        buyer_investment_balance = mul_div_clamped(
            buyer_investment_balance,
            SCALE + monthly_investment_return,
            SCALE,
        );
        renter_investment_balance = mul_div_clamped(
            renter_investment_balance,
            SCALE + monthly_investment_return,
            SCALE,
        );

        if buy_monthly_cost < rent_monthly_cost {
            let savings = rent_monthly_cost - buy_monthly_cost;
            buyer_investment_balance = add_clamped(buyer_investment_balance, savings);
            buyer_total_contributions = add_clamped(buyer_total_contributions, savings);
        } else {
            let savings = buy_monthly_cost - rent_monthly_cost;
            renter_investment_balance = add_clamped(renter_investment_balance, savings);
            renter_monthly_contributions = add_clamped(renter_monthly_contributions, savings);
        }

        if month % 12 == 0 {
            current_rent = mul_div_clamped(
                current_rent,
                100 * SCALE + i.rent_increase_rate,
                100 * SCALE,
            );
            let year: u32 = month / 12;
            let months_paid: u32 = if month < term_months {
                month
            } else {
                term_months
            };
            let remaining_mort = remaining_balance(
                loan_amount,
                i.mortgage_rate,
                i.loan_term_years,
                months_paid,
            );
            let selling_costs_now = mul_div_clamped(
                current_home_value,
                i.selling_cost_percent,
                100 * SCALE,
            );
            let buy_net_worth = combine_clamped(
                current_home_value,
                buyer_investment_balance,
                remaining_mort,
                selling_costs_now,
            );
            let rent_net_worth = renter_investment_balance;
            proof {
                assert(state_at(i, month as nat) == step_state(i, prev, month as int));
                vstd::arithmetic::div_mod::lemma_fundamental_div_mod(month as int, 12);
            }
            yearly_snapshots.push(
                YearlySnapshot { year, buy_net_worth, rent_net_worth },
            );
        } else {
            proof {
                assert(state_at(i, month as nat) == step_state(i, prev, month as int));
            }
        }
        month = month + 1;
    }

    proof {
        lemma_state_ok(i, total_months as nat);
        vstd::arithmetic::div_mod::lemma_div_by_multiple(i.time_horizon_years as int, 12);
        assert(state_at(i, (month - 1) as nat) == spec_final_state(i));
    }

    let months_paid_final: u32 = if total_months < term_months {
        total_months
    } else {
        term_months
    };
    let remaining_mortgage = remaining_balance(
        loan_amount,
        i.mortgage_rate,
        i.loan_term_years,
        months_paid_final,
    );
    let selling_costs = mul_div_clamped(current_home_value, i.selling_cost_percent, 100 * SCALE);
    let buy_net_worth = combine_clamped(
        current_home_value,
        buyer_investment_balance,
        remaining_mortgage,
        selling_costs,
    );
    let total_principal_paid = sub_clamped(loan_amount, remaining_mortgage);
    let total_interest_paid = sub_clamped(total_mortgage_payments, total_principal_paid);
    let renter_investment_returns = sub_clamped(
        sub_clamped(renter_investment_balance, initial_investment),
        renter_monthly_contributions,
    );
    let buyer_investment_returns = sub_clamped(buyer_investment_balance, buyer_total_contributions);

    let months_i: i64 = total_months as i64;
    let avg_buy_monthly = div_pos(total_buy_monthly_costs, months_i);
    let avg_rent_monthly = div_pos(total_rent_monthly_costs, months_i);

    let buy_breakdown = BuyBreakdown {
        down_payment,
        closing_costs,
        total_mortgage_payments,
        total_interest_paid,
        total_principal_paid,
        total_property_tax,
        total_insurance: total_home_insurance,
        total_hoa,
        total_maintenance,
        selling_costs,
        final_home_value: current_home_value,
        remaining_mortgage,
        net_worth: buy_net_worth,
        monthly_savings_invested: buyer_total_contributions,
        investment_returns: buyer_investment_returns,
        investment_balance: buyer_investment_balance,
    };

    let rent_breakdown = RentBreakdown {
        initial_investment,
        total_rent_paid,
        total_renters_insurance,
        monthly_cost_savings: renter_monthly_contributions,
        investment_returns: renter_investment_returns,
        final_investment_value: renter_investment_balance,
        net_worth: renter_investment_balance,
    };

    let monthly_comparison = MonthlyCostComparison {
        avg_buy_monthly,
        avg_rent_monthly,
        avg_monthly_difference: avg_buy_monthly - avg_rent_monthly,
    };

    let monthly_breakdown = MonthlyBreakdown {
        buy_mortgage: div_pos(total_mortgage_payments, months_i),
        buy_property_tax: div_pos(total_property_tax, months_i),
        buy_insurance: div_pos(total_home_insurance, months_i),
        buy_hoa: div_pos(total_hoa, months_i),
        buy_maintenance: div_pos(total_maintenance, months_i),
        buy_total: avg_buy_monthly,
        rent_payment: div_pos(total_rent_paid, months_i),
        rent_insurance: div_pos(total_renters_insurance, months_i),
        rent_total: avg_rent_monthly,
    };

    let difference = buy_net_worth - renter_investment_balance;

    CalculationResult {
        buy_breakdown,
        rent_breakdown,
        monthly_comparison,
        monthly_breakdown,
        difference,
        yearly_snapshots,
    }
}

} // verus!
