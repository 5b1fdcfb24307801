//! Fixed-rate installment loan schedules over 96-bit decimal arithmetic.
//!
//! The crate compares the two amortization systems commonly used for
//! real-estate financing in Brazil:
//!
//! - **SAC** (constant amortization): the principal portion of every payment
//!   is the same, so the total payment falls month over month.
//! - **Price** (French system): the total payment is the same every month.
//!
//! Numbers are base-10 decimals carried as a mantissa and scale ([`Dec`]);
//! the arithmetic itself is performed by the `rust_decimal` crate behind a
//! small trusted boundary in [`decimal`].

pub mod decimal;
pub mod laws;
pub mod price;
pub mod rate;
pub mod sac;
pub mod trajectory;
pub mod types;

pub use decimal::Dec;
pub use price::calculate_price_table;
pub use rate::normalize_annual_interest_rate;
pub use sac::calculate_sac_table;
pub use trajectory::calculate_debt_trajectory;
pub use types::CalculationError;
pub use types::DebtCalculationInput;
pub use types::DebtTrajectoryResult;
pub use types::MonthPayment;
pub use types::PriceTableResult;
pub use types::SacTableResult;
