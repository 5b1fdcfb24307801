//! Inputs, outputs and the error of the schedule calculations.
//!
//! Every output struct has a ghost model (its view): the same figures with
//! the period curve as a `Seq`, which the contracts of the generators pin to
//! the specification-level recurrences.

use vstd::prelude::*;

use crate::decimal::Dec;

verus! {

/// Input parameters for a debt trajectory calculation.
#[derive(Clone, Debug)]
pub struct DebtCalculationInput {
    /// The total principal amount of the loan.
    pub total_amount: Dec,
    /// The annual interest rate as a percentage (`10.5` for 10.5%).
    pub interest_per_year: Dec,
    /// The total number of months of the loan.
    pub total_months: u32,
}

impl DebtCalculationInput {
    /// Both decimal fields are representable.
    pub open spec fn wf(self) -> bool {
        self.total_amount.wf() && self.interest_per_year.wf()
    }
}

/// The payment details of a single month.
#[derive(Clone, Debug)]
pub struct MonthPayment {
    /// The remaining balance after the payment, clamped below at zero.
    pub new_balance: Dec,
    /// The portion of the payment that reduces the principal.
    pub current_amortization: Dec,
    /// The portion of the payment that covers interest.
    pub current_interest: Dec,
}

/// The failure conditions of a calculation.
#[derive(Clone, Copy, Debug, PartialEq, Eq, Structural)]
pub enum CalculationError {
    /// The requested term has no months, so no period can be produced.
    ZeroTerm,
    /// The annual rate is at or below minus one hundred percent, so the
    /// compounding base is not positive and the twelfth root is undefined.
    InvalidRate,
    /// An intermediate figure cannot be represented in 96-bit decimal
    /// arithmetic.
    ArithmeticOverflow,
}

/// The results of a financing calculation by the Price table method.
#[derive(Clone, Debug)]
pub struct PriceTableResult {
    /// The fixed monthly payment, rounded to two digits.
    pub fixed_payment: Dec,
    /// The total paid over the lifetime of the loan, rounded to two digits.
    pub total_paid: Dec,
    /// The payment details of each month, at full precision.
    pub amortization_curve: Vec<MonthPayment>,
}

/// The results of a financing calculation by the SAC method.
#[derive(Clone, Debug)]
pub struct SacTableResult {
    /// The fixed principal portion of each month, rounded to two digits.
    pub fixed_amortization: Dec,
    /// The first (highest) payment, rounded to two digits.
    pub first_payment: Dec,
    /// The last (lowest) payment, rounded to two digits.
    pub last_payment: Dec,
    /// The total paid over the lifetime of the loan, rounded to two digits.
    pub total_paid: Dec,
    /// The payment details of each month, at full precision.
    pub amortization_curve: Vec<MonthPayment>,
}

/// The combined results for both Price and SAC calculations.
#[derive(Clone, Debug)]
pub struct DebtTrajectoryResult {
    /// The initial total amount of the loan, echoed unrounded.
    pub initial_total_amount: Dec,
    /// The results of the Price table method.
    pub price_table: PriceTableResult,
    /// The results of the SAC method.
    pub sac_table: SacTableResult,
}

/// The ghost model of a Price table.
pub ghost struct PriceTableModel {
    pub fixed_payment: Dec,
    pub total_paid: Dec,
    pub curve: Seq<MonthPayment>,
}

/// The ghost model of a SAC table.
pub ghost struct SacTableModel {
    pub fixed_amortization: Dec,
    pub first_payment: Dec,
    pub last_payment: Dec,
    pub total_paid: Dec,
    pub curve: Seq<MonthPayment>,
}

/// The ghost model of a combined trajectory.
pub ghost struct TrajectoryModel {
    pub initial_total_amount: Dec,
    pub price_table: PriceTableModel,
    pub sac_table: SacTableModel,
}

impl View for PriceTableResult {
    type V = PriceTableModel;

    open spec fn view(&self) -> PriceTableModel {
        PriceTableModel {
            fixed_payment: self.fixed_payment,
            total_paid: self.total_paid,
            curve: self.amortization_curve@,
        }
    }
}

impl View for SacTableResult {
    type V = SacTableModel;

    open spec fn view(&self) -> SacTableModel {
        SacTableModel {
            fixed_amortization: self.fixed_amortization,
            first_payment: self.first_payment,
            last_payment: self.last_payment,
            total_paid: self.total_paid,
            curve: self.amortization_curve@,
        }
    }
}

impl View for DebtTrajectoryResult {
    type V = TrajectoryModel;

    open spec fn view(&self) -> TrajectoryModel {
        TrajectoryModel {
            initial_total_amount: self.initial_total_amount,
            price_table: self.price_table@,
            sac_table: self.sac_table@,
        }
    }
}

/// The model of a Price result, with the error passed through.
pub open spec fn price_view(
    r: Result<PriceTableResult, CalculationError>,
) -> Result<PriceTableModel, CalculationError> {
    match r {
        Ok(t) => Ok(t@),
        Err(e) => Err(e),
    }
}

/// The model of a SAC result, with the error passed through.
pub open spec fn sac_view(
    r: Result<SacTableResult, CalculationError>,
) -> Result<SacTableModel, CalculationError> {
    match r {
        Ok(t) => Ok(t@),
        Err(e) => Err(e),
    }
}

/// The model of a trajectory result, with the error passed through.
pub open spec fn trajectory_view(
    r: Result<DebtTrajectoryResult, CalculationError>,
) -> Result<TrajectoryModel, CalculationError> {
    match r {
        Ok(t) => Ok(t@),
        Err(e) => Err(e),
    }
}

} // verus!
