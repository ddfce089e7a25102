//! Tests of the amortization helpers and the simulation engine.

use buy_vs_rent::Inputs;
use buy_vs_rent::SCALE;
use buy_vs_rent::calculate;
use buy_vs_rent::calculate_monthly_payment;
use buy_vs_rent::remaining_balance;

fn dollars(d: i64) -> i64 {
    d * SCALE
}

/// The baseline inputs: a typical purchase, identical to the defaults.
fn baseline_inputs() -> Inputs {
    Inputs {
        home_price: dollars(400_000),
        down_payment_percent: dollars(20),
        mortgage_rate: 6_500_000_000,
        loan_term_years: 30,
        property_tax_rate: 1_200_000_000,
        home_insurance: dollars(1_500),
        hoa_monthly: 0,
        maintenance_percent: dollars(1),
        home_appreciation: dollars(3),
        closing_cost_percent: dollars(3),
        selling_cost_percent: dollars(6),
        monthly_rent: dollars(2_000),
        rent_increase_rate: dollars(3),
        renters_insurance: dollars(200),
        investment_return: dollars(7),
        time_horizon_years: 10,
    }
}

#[test]
fn monthly_payment_zero_rate_is_straight_line() {
    let principal = dollars(360_000);
    let payment = calculate_monthly_payment(principal, 0, 30);
    assert_eq!(payment, principal / 360);
    assert_eq!(payment, dollars(1_000));
}

#[test]
fn monthly_payment_standard_amortization() {
    // 320 000 financed at 6.5% over 30 years: the standard formula gives
    // about 2022.62 a month.
    let payment = calculate_monthly_payment(dollars(320_000), 6_500_000_000, 30);
    assert!(payment > dollars(2_021), "payment too low: {payment}");
    assert!(payment < dollars(2_024), "payment too high: {payment}");
}

#[test]
fn remaining_balance_zero_at_full_term() {
    let principal = dollars(360_000);
    for rate in [0i64, 6_500_000_000, 12_300_000_000] {
        assert_eq!(remaining_balance(principal, rate, 30, 360), 0);
        assert_eq!(remaining_balance(principal, rate, 30, 500), 0);
    }
}

#[test]
fn remaining_balance_zero_rate_midway() {
    let principal = dollars(360_000);
    assert_eq!(remaining_balance(principal, 0, 30, 180), dollars(180_000));
    assert_eq!(remaining_balance(principal, 0, 30, 0), principal);
}

#[test]
fn remaining_balance_decreases_with_payments() {
    let principal = dollars(320_000);
    let rate = 6_500_000_000;
    let b0 = remaining_balance(principal, rate, 30, 0);
    let b120 = remaining_balance(principal, rate, 30, 120);
    let b240 = remaining_balance(principal, rate, 30, 240);
    assert!(b0 >= b120 && b120 >= b240 && b240 > 0);
}

#[test]
fn difference_is_net_worth_gap() {
    let result = calculate(&baseline_inputs());
    assert_eq!(
        result.difference,
        result.buy_breakdown.net_worth - result.rent_breakdown.net_worth
    );
}

#[test]
fn snapshots_cover_each_year() {
    let result = calculate(&baseline_inputs());
    assert_eq!(result.yearly_snapshots.len(), 10);
    for (k, snapshot) in result.yearly_snapshots.iter().enumerate() {
        assert_eq!(snapshot.year as usize, k + 1);
    }
}

#[test]
fn monthly_averages_divide_totals() {
    let result = calculate(&baseline_inputs());
    let months = 120;
    let buy = &result.buy_breakdown;
    let rent = &result.rent_breakdown;
    let avg = &result.monthly_breakdown;
    assert_eq!(avg.buy_mortgage, buy.total_mortgage_payments / months);
    assert_eq!(avg.buy_property_tax, buy.total_property_tax / months);
    assert_eq!(avg.buy_insurance, buy.total_insurance / months);
    assert_eq!(avg.buy_hoa, buy.total_hoa / months);
    assert_eq!(avg.buy_maintenance, buy.total_maintenance / months);
    assert_eq!(avg.rent_payment, rent.total_rent_paid / months);
    assert_eq!(avg.rent_insurance, rent.total_renters_insurance / months);
    assert_eq!(avg.buy_total, result.monthly_comparison.avg_buy_monthly);
    assert_eq!(avg.rent_total, result.monthly_comparison.avg_rent_monthly);
    assert_eq!(
        result.monthly_comparison.avg_monthly_difference,
        result.monthly_comparison.avg_buy_monthly - result.monthly_comparison.avg_rent_monthly
    );
}

#[test]
fn simulate_twice_identical() {
    let inputs = baseline_inputs();
    let first = calculate(&inputs);
    let second = calculate(&inputs);
    assert_eq!(first, second);
}

#[test]
fn baseline_breakdown_figures() {
    let result = calculate(&baseline_inputs());
    assert_eq!(result.buy_breakdown.down_payment, dollars(80_000));
    assert_eq!(result.buy_breakdown.closing_costs, dollars(12_000));
    assert_eq!(result.rent_breakdown.initial_investment, dollars(92_000));
    // The loan of 320 000 at 6.5% over 30 years amortizes at about 2022.62 a
    // month, and the mortgage runs through the whole 10-year horizon.
    let mortgage = result.monthly_breakdown.buy_mortgage;
    assert!(mortgage > dollars(2_021), "average mortgage too low: {mortgage}");
    assert!(mortgage < dollars(2_024), "average mortgage too high: {mortgage}");
}

#[test]
fn zero_growth_horizon_equals_term() {
    // Horizon equal to the loan term, no appreciation, no investment return:
    // the buyer ends with the home price minus selling costs plus the banked
    // monthly savings, all exact.
    let inputs = Inputs {
        home_price: dollars(400_000),
        down_payment_percent: dollars(20),
        mortgage_rate: 6_500_000_000,
        loan_term_years: 15,
        property_tax_rate: 1_200_000_000,
        home_insurance: dollars(1_500),
        hoa_monthly: dollars(50),
        maintenance_percent: dollars(1),
        home_appreciation: 0,
        closing_cost_percent: dollars(3),
        selling_cost_percent: dollars(6),
        monthly_rent: dollars(2_000),
        rent_increase_rate: dollars(3),
        renters_insurance: dollars(200),
        investment_return: 0,
        time_horizon_years: 15,
    };
    let result = calculate(&inputs);
    let buy = &result.buy_breakdown;
    assert_eq!(buy.remaining_mortgage, 0);
    assert_eq!(buy.final_home_value, dollars(400_000));
    assert_eq!(buy.selling_costs, dollars(24_000));
    // 0% return: the balance is exactly the sum of the deposits.
    assert_eq!(buy.investment_balance, buy.monthly_savings_invested);
    assert_eq!(buy.investment_returns, 0);
    assert_eq!(
        buy.net_worth,
        dollars(400_000) - dollars(24_000) + buy.investment_balance
    );
}

#[test]
fn equal_monthly_costs_bank_nothing() {
    // Contrived inputs that make the two monthly costs equal every month:
    // no side ever banks savings, and the renter's balance is the starting
    // capital compounded with no deposits.
    let inputs = Inputs {
        home_price: dollars(360_000),
        down_payment_percent: dollars(20),
        mortgage_rate: 0,
        loan_term_years: 30,
        property_tax_rate: 0,
        home_insurance: 0,
        hoa_monthly: 0,
        maintenance_percent: 0,
        home_appreciation: 0,
        closing_cost_percent: 0,
        selling_cost_percent: 0,
        monthly_rent: dollars(800),
        rent_increase_rate: 0,
        renters_insurance: 0,
        investment_return: dollars(7),
        time_horizon_years: 2,
    };
    // Loan 288 000 over 360 months: payment exactly 800, equal to the rent.
    let result = calculate(&inputs);
    assert_eq!(result.buy_breakdown.monthly_savings_invested, 0);
    assert_eq!(result.buy_breakdown.investment_balance, 0);
    assert_eq!(result.rent_breakdown.monthly_cost_savings, 0);
    // The renter's capital (72 000) compounds monthly at 7%/12 with no
    // deposits; replicate the fixed-point compounding exactly.
    let monthly_rate = dollars(7) / 1200;
    let mut balance: i64 = dollars(72_000);
    for _ in 0..24 {
        balance = ((balance as i128) * ((SCALE + monthly_rate) as i128) / (SCALE as i128)) as i64;
    }
    assert_eq!(result.rent_breakdown.final_investment_value, balance);
    assert_eq!(
        result.rent_breakdown.investment_returns,
        balance - dollars(72_000)
    );
}

#[test]
fn negative_appreciation_declines_home_value() {
    // A declining market: -5% a year compounds the home value downward,
    // month by month, with the exact fixed-point factor (1 - 0.05/12).
    let inputs = Inputs {
        home_appreciation: -dollars(5),
        time_horizon_years: 2,
        ..baseline_inputs()
    };
    let result = calculate(&inputs);
    let factor = (1200 * SCALE - dollars(5)) / 1200;
    let mut expected: i64 = dollars(400_000);
    for _ in 0..24 {
        expected = ((expected as i128) * (factor as i128) / (SCALE as i128)) as i64;
    }
    assert_eq!(result.buy_breakdown.final_home_value, expected);
    assert!(expected < dollars(400_000));
    assert_eq!(
        result.difference,
        result.buy_breakdown.net_worth - result.rent_breakdown.net_worth
    );
}

#[test]
fn horizon_beyond_loan_term() {
    // A 1-year loan inside a 2-year horizon: months 13..24 charge no
    // mortgage, so the total paid is exactly the loan.
    let inputs = Inputs {
        home_price: dollars(120_000),
        down_payment_percent: 0,
        mortgage_rate: 0,
        loan_term_years: 1,
        property_tax_rate: 0,
        home_insurance: 0,
        hoa_monthly: 0,
        maintenance_percent: 0,
        home_appreciation: 0,
        closing_cost_percent: 0,
        selling_cost_percent: 0,
        monthly_rent: dollars(500),
        rent_increase_rate: 0,
        renters_insurance: 0,
        investment_return: 0,
        time_horizon_years: 2,
    };
    let result = calculate(&inputs);
    assert_eq!(result.buy_breakdown.total_mortgage_payments, dollars(120_000));
    assert_eq!(result.buy_breakdown.remaining_mortgage, 0);
    assert_eq!(result.buy_breakdown.total_principal_paid, dollars(120_000));
    assert_eq!(result.buy_breakdown.total_interest_paid, 0);
}

#[test]
fn horizon_shorter_than_loan_term() {
    // Stopping mid-amortization: the remaining balance is still owed and
    // matches the amortization helper at 12 months paid.
    let inputs = baseline_inputs();
    let short = Inputs { time_horizon_years: 1, ..inputs };
    let result = calculate(&short);
    let expected = remaining_balance(dollars(320_000), 6_500_000_000, 30, 12);
    assert_eq!(result.buy_breakdown.remaining_mortgage, expected);
    assert!(expected > dollars(316_000));
    assert_eq!(result.yearly_snapshots.len(), 1);
}

#[test]
fn default_inputs_are_baseline_inputs() {
    assert_eq!(Inputs::default(), baseline_inputs());
}
