//! The SAC amortization table: constant principal portions.

use vstd::prelude::*;

use crate::decimal::{
    clamp0_spec, dec_add, dec_div, dec_max, dec_mul, dec_round2, dec_sub, diff_rep, prod_rep,
    quot_rep, round2_spec, sum_rep, Dec,
};
use crate::price::months_dec;
use crate::types::{sac_view, CalculationError, MonthPayment, SacTableModel, SacTableResult};

verus! {

/// The running state of a SAC table after some periods: the recorded curve,
/// the running (unclamped) balance, the running total paid, and the first
/// and latest total payments.
pub ghost struct SacPeriodsState {
    pub curve: Seq<MonthPayment>,
    pub balance: Dec,
    pub total: Dec,
    pub first: Dec,
    pub last: Dec,
}

/// The first `k` periods of the SAC table.  Each period charges interest on
/// the running balance, pays it on top of the fixed principal portion, and
/// records the new balance clamped below at zero.  `None` where any figure
/// cannot be represented.
pub open spec fn sac_periods(principal: Dec, rate: Dec, fixed: Dec, k: nat) -> Option<
    SacPeriodsState,
>
    decreases k,
{
    if k == 0 {
        Some(
            SacPeriodsState {
                curve: Seq::empty(),
                balance: principal,
                total: Dec::spec_zero(),
                first: Dec::spec_zero(),
                last: Dec::spec_zero(),
            },
        )
    } else {
        match sac_periods(principal, rate, fixed, (k - 1) as nat) {
            None => None,
            Some(state) => match prod_rep(state.balance, rate) {
                None => None,
                Some(interest) => match sum_rep(fixed, interest) {
                    None => None,
                    Some(payment) => match diff_rep(state.balance, fixed) {
                        None => None,
                        Some(new_balance) => match sum_rep(state.total, payment) {
                            None => None,
                            Some(new_total) => Some(
                                SacPeriodsState {
                                    curve: state.curve.push(
                                        MonthPayment {
                                            new_balance: clamp0_spec(new_balance),
                                            current_amortization: fixed,
                                            current_interest: interest,
                                        },
                                    ),
                                    balance: new_balance,
                                    total: new_total,
                                    first: if k == 1 {
                                        payment
                                    } else {
                                        state.first
                                    },
                                    last: payment,
                                },
                            ),
                        },
                    },
                },
            },
        }
    }
}

/// The full SAC table: `ZeroTerm` for an empty term, otherwise the constant
/// principal portion `principal / months` and the curve of all periods, the
/// reported figures rounded to two digits; `ArithmeticOverflow` where a
/// figure cannot be represented.
pub open spec fn spec_sac_table(principal: Dec, rate: Dec, months: u32) -> Result<
    SacTableModel,
    CalculationError,
> {
    if months == 0 {
        Err(CalculationError::ZeroTerm)
    } else {
        match quot_rep(principal, months_dec(months)) {
            None => Err(CalculationError::ArithmeticOverflow),
            Some(fixed) => match sac_periods(principal, rate, fixed, months as nat) {
                None => Err(CalculationError::ArithmeticOverflow),
                Some(state) => Ok(
                    SacTableModel {
                        fixed_amortization: round2_spec(fixed),
                        first_payment: round2_spec(state.first),
                        last_payment: round2_spec(state.last),
                        total_paid: round2_spec(state.total),
                        curve: state.curve,
                    },
                ),
            },
        }
    }
}

/// A failed prefix fails every longer run of periods.
proof fn lemma_sac_periods_none(principal: Dec, rate: Dec, fixed: Dec, k1: nat, k2: nat)
    requires
        k1 <= k2,
        sac_periods(principal, rate, fixed, k1) is None,
    ensures
        sac_periods(principal, rate, fixed, k2) is None,
    decreases k2,
{
    if k2 > k1 {
        lemma_sac_periods_none(principal, rate, fixed, k1, (k2 - 1) as nat);
    }
}

/// Every successful run of `k` periods records `k` entries; each entry's
/// principal portion is the fixed one, and each recorded balance is
/// non-negative.
proof fn lemma_sac_periods_entries(principal: Dec, rate: Dec, fixed: Dec, k: nat)
    ensures
        sac_periods(principal, rate, fixed, k) matches Some(state) ==> {
            &&& state.curve.len() == k
            &&& forall|j: int|
                0 <= j < k ==> (#[trigger] state.curve[j]).current_amortization == fixed
            &&& forall|j: int|
                0 <= j < k ==> (#[trigger] state.curve[j]).new_balance.units() >= 0
        },
    decreases k,
{
    if k > 0 {
        lemma_sac_periods_entries(principal, rate, fixed, (k - 1) as nat);
    }
}

/// Calculates the financing trajectory by the SAC method (constant
/// amortization).
///
/// The principal portion of every period is `principal / months`; the
/// interest portion falls with the balance, so the total payment declines
/// month over month.  Per-period figures are recorded at full precision; the
/// reported fixed portion, first and last payments, and total are rounded to
/// two digits.
///
/// Fails with [`CalculationError::ZeroTerm`] exactly when `total_months` is
/// zero, and with [`CalculationError::ArithmeticOverflow`] where a figure
/// cannot be represented in 96-bit decimal arithmetic.
pub fn calculate_sac_table(
    total_amount: Dec,
    monthly_interest_rate: Dec,
    total_months: u32,
) -> (r: Result<SacTableResult, CalculationError>)
    requires
        total_amount.wf(),
        monthly_interest_rate.wf(),
    ensures
        sac_view(r) == spec_sac_table(total_amount, monthly_interest_rate, total_months),
        spec_sac_table(total_amount, monthly_interest_rate, total_months) is Ok ==> r is Ok,
        total_months == 0 <==> r == Err::<SacTableResult, CalculationError>(
            CalculationError::ZeroTerm,
        ),
        r matches Ok(t) ==> t.amortization_curve@.len() == total_months,
        r matches Ok(t) ==> (quot_rep(total_amount, months_dec(total_months)) matches Some(fixed)
            && forall|j: int|
            0 <= j < total_months ==> (#[trigger] t.amortization_curve@[j]).current_amortization
                == fixed),
        r matches Ok(t) ==> forall|j: int|
            0 <= j < total_months ==> (#[trigger] t.amortization_curve@[j]).new_balance.units()
                >= 0,
{
    if total_months == 0 {
        return Err(CalculationError::ZeroTerm);
    }
    let zero = Dec { mantissa: 0, scale: 0 };
    let term = Dec { mantissa: total_months as i128, scale: 0 };

    let fixed_amortization = match dec_div(&total_amount, &term) {
        Some(f) => f,
        None => {
            return Err(CalculationError::ArithmeticOverflow);
        },
    };

    let mut current_balance = total_amount;
    let mut total_paid = zero;
    let mut first_payment = zero;
    let mut last_payment = zero;
    let mut amortization_curve: Vec<MonthPayment> = Vec::new();
    let mut month: u32 = 0;

    while month < total_months
        invariant
            month <= total_months,
            zero == Dec::spec_zero(),
            total_amount.wf(),
            monthly_interest_rate.wf(),
            fixed_amortization.wf(),
            current_balance.wf(),
            total_paid.wf(),
            first_payment.wf(),
            last_payment.wf(),
            quot_rep(total_amount, months_dec(total_months)) == Some(fixed_amortization),
            sac_periods(total_amount, monthly_interest_rate, fixed_amortization, month as nat)
                == Some(
                SacPeriodsState {
                    curve: amortization_curve@,
                    balance: current_balance,
                    total: total_paid,
                    first: first_payment,
                    last: last_payment,
                },
            ),
        decreases total_months - month,
    {
        let interest_payment = match dec_mul(&current_balance, &monthly_interest_rate) {
            Some(i) => i,
            None => {
                proof {
                    lemma_sac_periods_none(
                        total_amount,
                        monthly_interest_rate,
                        fixed_amortization,
                        (month + 1) as nat,
                        total_months as nat,
                    );
                }
                return Err(CalculationError::ArithmeticOverflow);
            },
        };
        let current_payment = match dec_add(&fixed_amortization, &interest_payment) {
            Some(p) => p,
            None => {
                proof {
                    lemma_sac_periods_none(
                        total_amount,
                        monthly_interest_rate,
                        fixed_amortization,
                        (month + 1) as nat,
                        total_months as nat,
                    );
                }
                return Err(CalculationError::ArithmeticOverflow);
            },
        };
        if month == 0 {
            first_payment = current_payment;
        }
        last_payment = current_payment;
        let new_balance = match dec_sub(&current_balance, &fixed_amortization) {
            Some(b) => b,
            None => {
                proof {
                    lemma_sac_periods_none(
                        total_amount,
                        monthly_interest_rate,
                        fixed_amortization,
                        (month + 1) as nat,
                        total_months as nat,
                    );
                }
                return Err(CalculationError::ArithmeticOverflow);
            },
        };
        let new_total = match dec_add(&total_paid, &current_payment) {
            Some(t) => t,
            None => {
                proof {
                    lemma_sac_periods_none(
                        total_amount,
                        monthly_interest_rate,
                        fixed_amortization,
                        (month + 1) as nat,
                        total_months as nat,
                    );
                }
                return Err(CalculationError::ArithmeticOverflow);
            },
        };
        current_balance = new_balance;
        total_paid = new_total;
        let recorded = dec_max(&current_balance, &zero);
        amortization_curve.push(
            MonthPayment {
                new_balance: recorded,
                current_amortization: fixed_amortization,
                current_interest: interest_payment,
            },
        );
        month = month + 1;
    }

    proof {
        lemma_sac_periods_entries(
            total_amount,
            monthly_interest_rate,
            fixed_amortization,
            total_months as nat,
        );
    }
    Ok(
        SacTableResult {
            fixed_amortization: dec_round2(&fixed_amortization),
            first_payment: dec_round2(&first_payment),
            last_payment: dec_round2(&last_payment),
            total_paid: dec_round2(&total_paid),
            amortization_curve,
        },
    )
}

} // verus!
