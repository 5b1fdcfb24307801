//! The Price (French) amortization table: fixed total payments.

use vstd::prelude::*;

use crate::decimal::{
    clamp0_spec, dec_add, dec_div, dec_max, dec_mul, dec_powu, dec_round2, dec_sub, diff_rep,
    powu_rep, prod_rep, quot_rep, round2_spec, sum_rep, Dec,
};
use crate::types::{
    price_view, CalculationError, MonthPayment, PriceTableModel, PriceTableResult,
};

verus! {

/// The term expressed as a decimal number of months.
pub open spec fn months_dec(months: u32) -> Dec {
    Dec { mantissa: months as i128, scale: 0 }
}

/// The fixed payment of the Price table: `principal * (rate * g) / (g - 1)`
/// with the growth factor `g = (1 + rate)^months`.  A zero rate makes that
/// denominator zero, so it is special-cased as straight-line division of the
/// principal by the term.
pub open spec fn spec_price_payment(principal: Dec, rate: Dec, months: u32) -> Option<Dec> {
    if rate.mantissa == 0 {
        quot_rep(principal, months_dec(months))
    } else {
        match sum_rep(Dec::spec_one(), rate) {
            None => None,
            Some(base) => match powu_rep(base, months as int) {
                None => None,
                Some(growth) => match prod_rep(rate, growth) {
                    None => None,
                    Some(rate_growth) => match prod_rep(principal, rate_growth) {
                        None => None,
                        Some(numerator) => match diff_rep(growth, Dec::spec_one()) {
                            None => None,
                            Some(denominator) => quot_rep(numerator, denominator),
                        },
                    },
                },
            },
        }
    }
}

/// The first `k` periods of the Price table: the recorded curve, the running
/// (unclamped) balance, and the running total paid.  Each period charges
/// interest on the running balance, amortizes the rest of the fixed payment,
/// and records the new balance clamped below at zero.  `None` where any
/// figure cannot be represented.
pub open spec fn price_periods(principal: Dec, rate: Dec, payment: Dec, k: nat) -> Option<
    (Seq<MonthPayment>, Dec, Dec),
>
    decreases k,
{
    if k == 0 {
        Some((Seq::empty(), principal, Dec::spec_zero()))
    } else {
        match price_periods(principal, rate, payment, (k - 1) as nat) {
            None => None,
            Some(state) => {
                let curve = state.0;
                let balance = state.1;
                let total = state.2;
                match prod_rep(balance, rate) {
                    None => None,
                    Some(interest) => match diff_rep(payment, interest) {
                        None => None,
                        Some(amortization) => match diff_rep(balance, amortization) {
                            None => None,
                            Some(new_balance) => match sum_rep(total, payment) {
                                None => None,
                                Some(new_total) => Some(
                                    (
                                        curve.push(
                                            MonthPayment {
                                                new_balance: clamp0_spec(new_balance),
                                                current_amortization: amortization,
                                                current_interest: interest,
                                            },
                                        ),
                                        new_balance,
                                        new_total,
                                    ),
                                ),
                            },
                        },
                    },
                }
            },
        }
    }
}

/// The full Price table: `ZeroTerm` for an empty term, otherwise the curve
/// of all periods with the payment and total rounded to two digits for
/// reporting; `ArithmeticOverflow` where a figure cannot be represented.
pub open spec fn spec_price_table(principal: Dec, rate: Dec, months: u32) -> Result<
    PriceTableModel,
    CalculationError,
> {
    if months == 0 {
        Err(CalculationError::ZeroTerm)
    } else {
        match spec_price_payment(principal, rate, months) {
            None => Err(CalculationError::ArithmeticOverflow),
            Some(payment) => match price_periods(principal, rate, payment, months as nat) {
                None => Err(CalculationError::ArithmeticOverflow),
                Some(state) => Ok(
                    PriceTableModel {
                        fixed_payment: round2_spec(payment),
                        total_paid: round2_spec(state.2),
                        curve: state.0,
                    },
                ),
            },
        }
    }
}

/// A failed prefix fails every longer run of periods.
proof fn lemma_price_periods_none(principal: Dec, rate: Dec, payment: Dec, k1: nat, k2: nat)
    requires
        k1 <= k2,
        price_periods(principal, rate, payment, k1) is None,
    ensures
        price_periods(principal, rate, payment, k2) is None,
    decreases k2,
{
    if k2 > k1 {
        lemma_price_periods_none(principal, rate, payment, k1, (k2 - 1) as nat);
    }
}

/// Every successful run of `k` periods records `k` entries, each with a
/// non-negative recorded balance.
proof fn lemma_price_periods_entries(principal: Dec, rate: Dec, payment: Dec, k: nat)
    ensures
        price_periods(principal, rate, payment, k) matches Some(state) ==> {
            &&& state.0.len() == k
            &&& forall|j: int|
                0 <= j < k ==> (#[trigger] state.0[j]).new_balance.units() >= 0
        },
    decreases k,
{
    if k > 0 {
        lemma_price_periods_entries(principal, rate, payment, (k - 1) as nat);
    }
}

/// Calculates the financing trajectory by the Price table (fixed payments).
///
/// The fixed payment follows the annuity formula
/// `payment = principal * (rate * (1 + rate)^months) / ((1 + rate)^months - 1)`;
/// a zero monthly rate is special-cased as `principal / months`, since the
/// formula's denominator would be zero.  Per-period figures are recorded at
/// full precision; the reported payment and total are rounded to two digits.
///
/// Fails with [`CalculationError::ZeroTerm`] exactly when `total_months` is
/// zero, and with [`CalculationError::ArithmeticOverflow`] where a figure
/// cannot be represented in 96-bit decimal arithmetic.
pub fn calculate_price_table(
    total_amount: Dec,
    monthly_interest_rate: Dec,
    total_months: u32,
) -> (r: Result<PriceTableResult, CalculationError>)
    requires
        total_amount.wf(),
        monthly_interest_rate.wf(),
    ensures
        price_view(r) == spec_price_table(total_amount, monthly_interest_rate, total_months),
        spec_price_table(total_amount, monthly_interest_rate, total_months) is Ok ==> r is Ok,
        total_months == 0 <==> r == Err::<PriceTableResult, CalculationError>(
            CalculationError::ZeroTerm,
        ),
        r matches Ok(t) ==> t.amortization_curve@.len() == total_months,
        r matches Ok(t) ==> forall|j: int|
            0 <= j < total_months ==> (#[trigger] t.amortization_curve@[j]).new_balance.units()
                >= 0,
{
    if total_months == 0 {
        return Err(CalculationError::ZeroTerm);
    }
    let one = Dec { mantissa: 1, scale: 0 };
    let zero = Dec { mantissa: 0, scale: 0 };

    let payment: Dec;
    if monthly_interest_rate.mantissa == 0 {
        let term = Dec { mantissa: total_months as i128, scale: 0 };
        payment = match dec_div(&total_amount, &term) {
            Some(p) => p,
            None => {
                return Err(CalculationError::ArithmeticOverflow);
            },
        };
    } else {
        let base = match dec_add(&one, &monthly_interest_rate) {
            Some(b) => b,
            None => {
                return Err(CalculationError::ArithmeticOverflow);
            },
        };
        let growth = match dec_powu(&base, total_months as u64) {
            Some(g) => g,
            None => {
                return Err(CalculationError::ArithmeticOverflow);
            },
        };
        let rate_growth = match dec_mul(&monthly_interest_rate, &growth) {
            Some(p) => p,
            None => {
                return Err(CalculationError::ArithmeticOverflow);
            },
        };
        let numerator = match dec_mul(&total_amount, &rate_growth) {
            Some(p) => p,
            None => {
                return Err(CalculationError::ArithmeticOverflow);
            },
        };
        let denominator = match dec_sub(&growth, &one) {
            Some(d) => d,
            None => {
                return Err(CalculationError::ArithmeticOverflow);
            },
        };
        payment = match dec_div(&numerator, &denominator) {
            Some(p) => p,
            None => {
                return Err(CalculationError::ArithmeticOverflow);
            },
        };
    }
    assert(spec_price_payment(total_amount, monthly_interest_rate, total_months) == Some(payment));

    let mut current_balance = total_amount;
    let mut total_paid = zero;
    let mut amortization_curve: Vec<MonthPayment> = Vec::new();
    let mut month: u32 = 0;

    while month < total_months
        invariant
            month <= total_months,
            zero == Dec::spec_zero(),
            total_amount.wf(),
            monthly_interest_rate.wf(),
            payment.wf(),
            current_balance.wf(),
            total_paid.wf(),
            spec_price_payment(total_amount, monthly_interest_rate, total_months) == Some(payment),
            price_periods(total_amount, monthly_interest_rate, payment, month as nat) == Some(
                (amortization_curve@, current_balance, total_paid),
            ),
        decreases total_months - month,
    {
        let ghost prior = price_periods(
            total_amount,
            monthly_interest_rate,
            payment,
            month as nat,
        );
        let interest_payment = match dec_mul(&current_balance, &monthly_interest_rate) {
            Some(i) => i,
            None => {
                proof {
                    lemma_price_periods_none(
                        total_amount,
                        monthly_interest_rate,
                        payment,
                        (month + 1) as nat,
                        total_months as nat,
                    );
                }
                return Err(CalculationError::ArithmeticOverflow);
            },
        };
        let amortization = match dec_sub(&payment, &interest_payment) {
            Some(a) => a,
            None => {
                proof {
                    lemma_price_periods_none(
                        total_amount,
                        monthly_interest_rate,
                        payment,
                        (month + 1) as nat,
                        total_months as nat,
                    );
                }
                return Err(CalculationError::ArithmeticOverflow);
            },
        };
        let new_balance = match dec_sub(&current_balance, &amortization) {
            Some(b) => b,
            None => {
                proof {
                    lemma_price_periods_none(
                        total_amount,
                        monthly_interest_rate,
                        payment,
                        (month + 1) as nat,
                        total_months as nat,
                    );
                }
                return Err(CalculationError::ArithmeticOverflow);
            },
        };
        let new_total = match dec_add(&total_paid, &payment) {
            Some(t) => t,
            None => {
                proof {
                    lemma_price_periods_none(
                        total_amount,
                        monthly_interest_rate,
                        payment,
                        (month + 1) as nat,
                        total_months as nat,
                    );
                }
                return Err(CalculationError::ArithmeticOverflow);
            },
        };
        current_balance = new_balance;
        total_paid = new_total;
        let recorded = dec_max(&current_balance, &zero);
        amortization_curve.push(
            MonthPayment {
                new_balance: recorded,
                current_amortization: amortization,
                current_interest: interest_payment,
            },
        );
        month = month + 1;
    }

    proof {
        lemma_price_periods_entries(
            total_amount,
            monthly_interest_rate,
            payment,
            total_months as nat,
        );
    }
    Ok(
        PriceTableResult {
            fixed_payment: dec_round2(&payment),
            total_paid: dec_round2(&total_paid),
            amortization_curve,
        },
    )
}

} // verus!
