//! Laws that relate the calculations, stated over the models.

use vstd::prelude::*;

use crate::decimal::{diff_rep, Dec};
use crate::price::price_periods;
use crate::trajectory::spec_trajectory;
use crate::types::DebtCalculationInput;

verus! {

/// Determinism: two calculations over identical
/// `(principal, annual rate, months)` triples produce identical results.
/// The trajectory is a function of those three values alone, so repeated
/// calls agree in every figure and every period.
pub proof fn lemma_trajectory_deterministic(a: DebtCalculationInput, b: DebtCalculationInput)
    requires
        a.total_amount == b.total_amount,
        a.interest_per_year == b.interest_per_year,
        a.total_months == b.total_months,
    ensures
        spec_trajectory(a) == spec_trajectory(b),
{
    assert(a == b);
}

/// Constant payment, as far as the decimal arithmetic states it: in every
/// period of a Price table, the principal portion is the checked decimal
/// difference of the fixed payment and that period's interest portion — the
/// two portions recombine into the one fixed payment.
pub proof fn lemma_price_constant_payment(principal: Dec, rate: Dec, payment: Dec, k: nat)
    ensures
        price_periods(principal, rate, payment, k) matches Some(state) ==> forall|j: int|
            0 <= j < state.0.len() ==> diff_rep(
                payment,
                (#[trigger] state.0[j]).current_interest,
            ) == Some(state.0[j].current_amortization),
    decreases k,
{
    if k > 0 {
        lemma_price_constant_payment(principal, rate, payment, (k - 1) as nat);
    }
}

} // verus!
