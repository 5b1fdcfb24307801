//! The combined trajectory: rate normalization and both tables.

use vstd::prelude::*;

use crate::price::{calculate_price_table, spec_price_table};
use crate::rate::{normalize_annual_interest_rate, spec_normalize};
use crate::sac::{calculate_sac_table, spec_sac_table};
use crate::types::{
    trajectory_view, CalculationError, DebtCalculationInput, DebtTrajectoryResult,
    TrajectoryModel,
};

verus! {

/// The combined result: the annual rate normalized once, both tables
/// generated from the same monthly rate, and the input principal echoed
/// unrounded.  The first failure is passed through.
pub open spec fn spec_trajectory(input: DebtCalculationInput) -> Result<
    TrajectoryModel,
    CalculationError,
> {
    match spec_normalize(input.interest_per_year) {
        Err(e) => Err(e),
        Ok(rate) => match spec_price_table(input.total_amount, rate, input.total_months) {
            Err(e) => Err(e),
            Ok(price) => match spec_sac_table(input.total_amount, rate, input.total_months) {
                Err(e) => Err(e),
                Ok(sac) => Ok(
                    TrajectoryModel {
                        initial_total_amount: input.total_amount,
                        price_table: price,
                        sac_table: sac,
                    },
                ),
            },
        },
    }
}

/// Calculates and compares the debt trajectory for both the Price and the
/// SAC amortization systems.
///
/// The annual percentage rate is normalized once to an effective monthly
/// rate; both tables are generated from the same
/// `(principal, monthly rate, months)` triple; the result echoes the
/// input principal unrounded beside the two tables.
///
/// Fails with [`CalculationError::ZeroTerm`] exactly when
/// `input.total_months` is zero and the rate normalizes; with
/// [`CalculationError::InvalidRate`] when the annual rate is at or below
/// minus one hundred percent; and with
/// [`CalculationError::ArithmeticOverflow`] where a figure cannot be
/// represented in 96-bit decimal arithmetic.
pub fn calculate_debt_trajectory(input: DebtCalculationInput) -> (r: Result<
    DebtTrajectoryResult,
    CalculationError,
>)
    requires
        input.wf(),
    ensures
        trajectory_view(r) == spec_trajectory(input),
        spec_trajectory(input) is Ok ==> r is Ok,
        input.total_months == 0 && spec_normalize(input.interest_per_year) is Ok ==> r
            == Err::<DebtTrajectoryResult, CalculationError>(CalculationError::ZeroTerm),
        r matches Ok(t) ==> t.initial_total_amount == input.total_amount,
        r matches Ok(t) ==> t.price_table.amortization_curve@.len() == input.total_months
            && t.sac_table.amortization_curve@.len() == input.total_months,
{
    let monthly_interest_rate = match normalize_annual_interest_rate(input.interest_per_year) {
        Ok(rate) => rate,
        Err(e) => {
            return Err(e);
        },
    };
    let price_table = match calculate_price_table(
        input.total_amount,
        monthly_interest_rate,
        input.total_months,
    ) {
        Ok(t) => t,
        Err(e) => {
            return Err(e);
        },
    };
    let sac_table = match calculate_sac_table(
        input.total_amount,
        monthly_interest_rate,
        input.total_months,
    ) {
        Ok(t) => t,
        Err(e) => {
            return Err(e);
        },
    };
    Ok(DebtTrajectoryResult { initial_total_amount: input.total_amount, price_table, sac_table })
}

} // verus!
