//! Normalization of an annual percentage rate to a monthly rate.

use vstd::prelude::*;

use crate::decimal::{
    dec_add, dec_div, dec_powd, dec_sub, powd_rep, quot_rep, sum_rep, diff_rep, Dec,
};
use crate::types::CalculationError;

verus! {

/// The divisor that turns a percentage into a fraction: `100.0`.
pub open spec fn hundred_dec() -> Dec {
    Dec { mantissa: 1000, scale: 1 }
}

/// The number of months of a year: `12`.
pub open spec fn twelve_dec() -> Dec {
    Dec { mantissa: 12, scale: 0 }
}

/// What normalization returns for a given annual percentage rate: the
/// percentage is divided by `100`, `1` is added to get the annual growth
/// factor, the factor is raised to the power `1/12`, and `1` is subtracted
/// again.  A factor that is not positive is rejected; a figure that cannot
/// be represented is an overflow.
pub open spec fn spec_normalize(rate: Dec) -> Result<Dec, CalculationError> {
    match quot_rep(rate, hundred_dec()) {
        None => Err(CalculationError::ArithmeticOverflow),
        Some(percent) => match sum_rep(Dec::spec_one(), percent) {
            None => Err(CalculationError::ArithmeticOverflow),
            Some(base) => if base.mantissa <= 0 {
                Err(CalculationError::InvalidRate)
            } else {
                match quot_rep(Dec::spec_one(), twelve_dec()) {
                    None => Err(CalculationError::ArithmeticOverflow),
                    Some(exponent) => match powd_rep(base, exponent) {
                        None => Err(CalculationError::ArithmeticOverflow),
                        Some(grown) => match diff_rep(grown, Dec::spec_one()) {
                            None => Err(CalculationError::ArithmeticOverflow),
                            Some(monthly) => Ok(monthly),
                        },
                    },
                }
            },
        },
    }
}

/// Normalizes an annual interest rate percentage to an effective monthly
/// rate: the monthly rate whose compounding over twelve months reproduces
/// the stated annual growth.
///
/// A rate at or below minus one hundred percent is rejected as
/// [`CalculationError::InvalidRate`]; a figure that cannot be represented in
/// 96-bit decimal arithmetic is [`CalculationError::ArithmeticOverflow`].
pub fn normalize_annual_interest_rate(input: Dec) -> (r: Result<Dec, CalculationError>)
    requires
        input.wf(),
    ensures
        r == spec_normalize(input),
        r matches Ok(d) ==> d.wf(),
{
    let hundred = Dec { mantissa: 1000, scale: 1 };
    let one = Dec { mantissa: 1, scale: 0 };
    let twelve = Dec { mantissa: 12, scale: 0 };

    let percent = match dec_div(&input, &hundred) {
        Some(p) => p,
        None => {
            return Err(CalculationError::ArithmeticOverflow);
        },
    };
    let base = match dec_add(&one, &percent) {
        Some(b) => b,
        None => {
            return Err(CalculationError::ArithmeticOverflow);
        },
    };
    if base.mantissa <= 0 {
        return Err(CalculationError::InvalidRate);
    }
    let exponent = match dec_div(&one, &twelve) {
        Some(e) => e,
        None => {
            return Err(CalculationError::ArithmeticOverflow);
        },
    };
    let grown = match dec_powd(&base, &exponent) {
        Some(g) => g,
        None => {
            return Err(CalculationError::ArithmeticOverflow);
        },
    };
    match dec_sub(&grown, &one) {
        Some(monthly) => Ok(monthly),
        None => Err(CalculationError::ArithmeticOverflow),
    }
}

} // verus!
