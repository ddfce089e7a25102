//! Buy-versus-rent projection engine.
//!
//! Compares the long-run financial outcome of buying a home against renting
//! under a shared monthly budget. The engine runs a deterministic
//! month-by-month projection of both scenarios, records a yearly net-worth
//! snapshot for each simulated year, and a sweep driver re-runs the whole
//! simulation while varying one input at a time.
//!
//! Money and rates are fixed-point integers (see [`money`]): a value of
//! `SCALE` stands for one dollar, or for a rate of one percent. Every
//! arithmetic step saturates at `MONEY_MAX`, so the whole computation is a
//! total function of its inputs, and each public function's contract pins its
//! result to a mathematical model of that computation.

pub mod amortization;
pub mod engine;
pub mod money;
pub mod sweep;

pub use amortization::MAX_YEARS;
pub use amortization::calculate_monthly_payment;
pub use amortization::remaining_balance;
pub use engine::BuyBreakdown;
pub use engine::CalculationResult;
pub use engine::Inputs;
pub use engine::MonthlyBreakdown;
pub use engine::MonthlyCostComparison;
pub use engine::RentBreakdown;
pub use engine::YearlySnapshot;
pub use engine::calculate;
pub use money::MONEY_MAX;
pub use money::SCALE;
pub use sweep::SweepField;
pub use sweep::calculate_difference_for_value;
pub use sweep::generate_sensitivity_data;
