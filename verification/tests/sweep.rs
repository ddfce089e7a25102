//! Tests of the sensitivity sweep.

use buy_vs_rent::Inputs;
use buy_vs_rent::SCALE;
use buy_vs_rent::SweepField;
use buy_vs_rent::calculate;
use buy_vs_rent::calculate_difference_for_value;
use buy_vs_rent::generate_sensitivity_data;

fn base_inputs() -> Inputs {
    Inputs::default()
}

#[test]
fn sweep_endpoints_and_length() {
    let inputs = base_inputs();
    let min = 1_000 * SCALE;
    let max = 3_000 * SCALE;
    let samples = generate_sensitivity_data(&inputs, SweepField::MonthlyRent, min, max, 10);
    assert_eq!(samples.len(), 11);
    assert_eq!(samples[0].0, min);
    assert_eq!(samples[10].0, max);
}

#[test]
fn sweep_samples_are_evenly_spaced() {
    let inputs = base_inputs();
    let min = 1_000 * SCALE;
    let max = 3_000 * SCALE;
    let samples = generate_sensitivity_data(&inputs, SweepField::MonthlyRent, min, max, 10);
    for (k, sample) in samples.iter().enumerate() {
        assert_eq!(sample.0, min + (max - min) * (k as i64) / 10);
    }
}

#[test]
fn sweep_reruns_the_engine_per_sample() {
    let inputs = base_inputs();
    let min = 1_000 * SCALE;
    let max = 3_000 * SCALE;
    let samples = generate_sensitivity_data(&inputs, SweepField::MonthlyRent, min, max, 4);
    for sample in &samples {
        let modified = Inputs { monthly_rent: sample.0, ..inputs };
        assert_eq!(sample.1, calculate(&modified).difference);
    }
}

#[test]
fn difference_for_value_overwrites_one_field() {
    let inputs = base_inputs();
    let diff = calculate_difference_for_value(&inputs, SweepField::HomePrice, 500_000 * SCALE);
    let modified = Inputs { home_price: 500_000 * SCALE, ..inputs };
    assert_eq!(diff, calculate(&modified).difference);
}

#[test]
fn sweep_year_field_truncates() {
    // 2.7 years truncates to a 2-year horizon, not a rounded 3.
    let inputs = base_inputs();
    let value = 2 * SCALE + 7 * SCALE / 10;
    let diff = calculate_difference_for_value(&inputs, SweepField::TimeHorizonYears, value);
    let modified = Inputs { time_horizon_years: 2, ..inputs };
    assert_eq!(diff, calculate(&modified).difference);
}

#[test]
fn sweep_loan_term_field() {
    let inputs = base_inputs();
    let diff = calculate_difference_for_value(&inputs, SweepField::LoanTermYears, 15 * SCALE);
    let modified = Inputs { loan_term_years: 15, ..inputs };
    assert_eq!(diff, calculate(&modified).difference);
}

#[test]
fn sweep_appreciation_spans_negative_range() {
    // The appreciation slider runs into negative territory; the sweep
    // covers it and a rising market beats a falling one.
    let inputs = base_inputs();
    let min = -5 * SCALE;
    let max = 10 * SCALE;
    let samples = generate_sensitivity_data(&inputs, SweepField::HomeAppreciation, min, max, 15);
    assert_eq!(samples.len(), 16);
    assert_eq!(samples[0].0, min);
    assert_eq!(samples[15].0, max);
    let falling = Inputs { home_appreciation: min, ..inputs };
    assert_eq!(samples[0].1, calculate(&falling).difference);
    assert!(samples[15].1 > samples[0].1);
}

#[test]
fn higher_rent_favors_buying() {
    // The reported difference grows with the rent being replaced.
    let inputs = base_inputs();
    let low = calculate_difference_for_value(&inputs, SweepField::MonthlyRent, 1_000 * SCALE);
    let high = calculate_difference_for_value(&inputs, SweepField::MonthlyRent, 4_000 * SCALE);
    assert!(high > low);
}
