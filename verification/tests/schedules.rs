//! Tests of the schedule generators and the combined trajectory.

use br_financial::calculate_debt_trajectory;
use br_financial::calculate_price_table;
use br_financial::calculate_sac_table;
use br_financial::normalize_annual_interest_rate;
use br_financial::CalculationError;
use br_financial::Dec;
use br_financial::DebtCalculationInput;

use rust_decimal::Decimal;

fn to_decimal(d: &Dec) -> Decimal {
    Decimal::from_i128_with_scale(d.mantissa, d.scale)
}

#[test]
fn test_calculate_debt_trajectory_happy_path() {
    let input = DebtCalculationInput {
        total_amount: Dec::new(12000, 0),
        interest_per_year: Dec::new(12, 0),
        total_months: 12,
    };

    let result = calculate_debt_trajectory(input).unwrap();

    // Assertions for SAC table
    assert!(result.sac_table.fixed_amortization.value_eq(&Dec::new(100000, 2)));
    assert!(result.sac_table.first_payment.value_eq(&Dec::new(111387, 2)));
    assert!(result.sac_table.last_payment.value_eq(&Dec::new(100949, 2)));
    assert!(result.sac_table.total_paid.value_eq(&Dec::new(1274013, 2)));

    // Assertions for Price table
    assert!(result.price_table.fixed_payment.value_eq(&Dec::new(106274, 2)));
    assert!(result.price_table.total_paid.value_eq(&Dec::new(1275294, 2)));
}

#[test]
fn test_normalize_annual_interest_rate() {
    // 12% per year should be a bit less than 1% per month when compounded.
    let annual_rate = Dec::new(12, 0);
    let monthly_rate = normalize_annual_interest_rate(annual_rate).unwrap();
    // Effective monthly rate for 12% annual is approx 0.9488%
    // (1.12)^(1/12) - 1 = 0.009488...
    // Let's check for a value in that range.
    assert!(Dec::new(94, 4).value_lt(&monthly_rate));
    assert!(monthly_rate.value_lt(&Dec::new(95, 4)));
}

#[test]
fn test_zero_months_error() {
    let input = DebtCalculationInput {
        total_amount: Dec::new(100000, 0),
        interest_per_year: Dec::new(10, 0),
        total_months: 0,
    };
    let result = calculate_debt_trajectory(input);
    assert!(result.is_err());
}

#[test]
fn repeated_calls_are_identical() {
    let input = DebtCalculationInput {
        total_amount: Dec::new(12000, 0),
        interest_per_year: Dec::new(12, 0),
        total_months: 12,
    };
    let a = calculate_debt_trajectory(input.clone()).unwrap();
    let b = calculate_debt_trajectory(input).unwrap();

    assert_eq!(a.initial_total_amount.mantissa, b.initial_total_amount.mantissa);
    assert_eq!(a.initial_total_amount.scale, b.initial_total_amount.scale);
    assert_eq!(a.price_table.fixed_payment.mantissa, b.price_table.fixed_payment.mantissa);
    assert_eq!(a.price_table.total_paid.mantissa, b.price_table.total_paid.mantissa);
    assert_eq!(a.sac_table.first_payment.mantissa, b.sac_table.first_payment.mantissa);
    assert_eq!(a.sac_table.last_payment.mantissa, b.sac_table.last_payment.mantissa);
    assert_eq!(a.sac_table.total_paid.mantissa, b.sac_table.total_paid.mantissa);
    assert_eq!(a.price_table.amortization_curve.len(), b.price_table.amortization_curve.len());
    for (x, y) in a
        .price_table
        .amortization_curve
        .iter()
        .zip(b.price_table.amortization_curve.iter())
    {
        assert_eq!(x.new_balance.mantissa, y.new_balance.mantissa);
        assert_eq!(x.new_balance.scale, y.new_balance.scale);
        assert_eq!(x.current_amortization.mantissa, y.current_amortization.mantissa);
        assert_eq!(x.current_interest.mantissa, y.current_interest.mantissa);
    }
    for (x, y) in a.sac_table.amortization_curve.iter().zip(b.sac_table.amortization_curve.iter())
    {
        assert_eq!(x.new_balance.mantissa, y.new_balance.mantissa);
        assert_eq!(x.current_amortization.mantissa, y.current_amortization.mantissa);
        assert_eq!(x.current_interest.mantissa, y.current_interest.mantissa);
    }
}

#[test]
fn period_count_matches_term() {
    let rate = normalize_annual_interest_rate(Dec::new(12, 0)).unwrap();
    for months in [1u32, 7, 12] {
        let price = calculate_price_table(Dec::new(9000, 0), rate, months).unwrap();
        assert_eq!(price.amortization_curve.len(), months as usize);
        let sac = calculate_sac_table(Dec::new(9000, 0), rate, months).unwrap();
        assert_eq!(sac.amortization_curve.len(), months as usize);
    }
}

#[test]
fn sac_principal_portion_is_constant() {
    let rate = normalize_annual_interest_rate(Dec::new(12, 0)).unwrap();
    let sac = calculate_sac_table(Dec::new(12000, 0), rate, 12).unwrap();
    let first = &sac.amortization_curve[0].current_amortization;
    for entry in &sac.amortization_curve {
        assert_eq!(entry.current_amortization.mantissa, first.mantissa);
        assert_eq!(entry.current_amortization.scale, first.scale);
        assert!(entry.current_amortization.value_eq(&Dec::new(1000, 0)));
    }
}

#[test]
fn sac_interest_is_non_increasing() {
    let rate = normalize_annual_interest_rate(Dec::new(105, 1)).unwrap();
    let sac = calculate_sac_table(Dec::new(360000, 0), rate, 420).unwrap();
    for pair in sac.amortization_curve.windows(2) {
        assert!(pair[1].current_interest.value_le(&pair[0].current_interest));
    }
}

#[test]
fn price_payment_is_constant() {
    let rate = normalize_annual_interest_rate(Dec::new(12, 0)).unwrap();
    let price = calculate_price_table(Dec::new(12000, 0), rate, 12).unwrap();
    let first_sum = to_decimal(&price.amortization_curve[0].current_amortization)
        + to_decimal(&price.amortization_curve[0].current_interest);
    for entry in &price.amortization_curve {
        let sum = to_decimal(&entry.current_amortization) + to_decimal(&entry.current_interest);
        assert_eq!(sum, first_sum);
    }
    assert_eq!(first_sum.round_dp(2), to_decimal(&price.fixed_payment));
}

#[test]
fn final_balance_is_clamped_to_zero() {
    // A zero rate keeps every figure exact, so both curves end at zero.
    let zero = Dec::new(0, 0);
    let price = calculate_price_table(Dec::new(12000, 0), zero, 12).unwrap();
    assert!(price.amortization_curve[11].new_balance.value_eq(&zero));
    let sac = calculate_sac_table(Dec::new(12000, 0), zero, 12).unwrap();
    assert!(sac.amortization_curve[11].new_balance.value_eq(&zero));

    // 2000 / 3 rounds up at the last digit, so the unclamped balance would
    // end a shade below zero; the recorded one is clamped to exactly zero.
    let sac3 = calculate_sac_table(Dec::new(2000, 0), zero, 3).unwrap();
    assert!(sac3.amortization_curve[2].new_balance.value_eq(&zero));
    assert!(!sac3.amortization_curve[2].new_balance.value_lt(&zero));
}

#[test]
fn zero_term_fails_in_both_generators() {
    let rate = Dec::new(94, 4);
    let price = calculate_price_table(Dec::new(1000, 0), rate, 0);
    assert!(matches!(price, Err(CalculationError::ZeroTerm)));
    let sac = calculate_sac_table(Dec::new(1000, 0), rate, 0);
    assert!(matches!(sac, Err(CalculationError::ZeroTerm)));
    let trajectory = calculate_debt_trajectory(DebtCalculationInput {
        total_amount: Dec::new(1000, 0),
        interest_per_year: Dec::new(10, 0),
        total_months: 0,
    });
    assert!(matches!(trajectory, Err(CalculationError::ZeroTerm)));
}

#[test]
fn long_term_scenario_succeeds() {
    let input = DebtCalculationInput {
        total_amount: Dec::new(360000, 0),
        interest_per_year: Dec::new(105, 1),
        total_months: 420,
    };
    let result = calculate_debt_trajectory(input).unwrap();
    assert!(result.sac_table.fixed_amortization.value_eq(&Dec::new(85714, 2)));
    assert_eq!(result.sac_table.amortization_curve.len(), 420);
    assert_eq!(result.price_table.amortization_curve.len(), 420);
    assert!(result.initial_total_amount.value_eq(&Dec::new(360000, 0)));
}

#[test]
fn rate_at_minus_one_hundred_percent_is_rejected() {
    let rejected = normalize_annual_interest_rate(Dec::new(-100, 0));
    assert!(matches!(rejected, Err(CalculationError::InvalidRate)));
    let below = calculate_debt_trajectory(DebtCalculationInput {
        total_amount: Dec::new(1000, 0),
        interest_per_year: Dec::new(-150, 0),
        total_months: 12,
    });
    assert!(matches!(below, Err(CalculationError::InvalidRate)));
}

#[test]
fn unrepresentable_figures_overflow() {
    // Ten times a principal near the 96-bit ceiling cannot be represented.
    let huge = Dec::new(50_000_000_000_000_000_000_000_000_000, 0);
    let rate = Dec::new(10, 0);
    let sac = calculate_sac_table(huge, rate, 100);
    assert!(matches!(sac, Err(CalculationError::ArithmeticOverflow)));
    let price = calculate_price_table(huge, rate, 100);
    assert!(matches!(price, Err(CalculationError::ArithmeticOverflow)));
}
