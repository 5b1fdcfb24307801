//! Base-10 decimal numbers carried as plain values.
//!
//! A [`Dec`] holds the constituent parts of a 96-bit decimal: an integer
//! mantissa and a scale, the value being `mantissa / 10^scale`.  Everything
//! the schedule logic reads of a number is in those two fields; the
//! arithmetic itself (addition, multiplication, division, powers, rounding,
//! comparison) is done by `rust_decimal` through the trusted functions of
//! this module.  Each trusted function converts a [`Dec`] to a
//! `rust_decimal::Decimal`, makes one call, and converts the result back.

use vstd::prelude::*;

use rust_decimal::Decimal;
use rust_decimal::MathematicalOps;

verus! {

/// Largest mantissa a 96-bit decimal can carry: `2^96 - 1`.
pub const MAX_MANTISSA: i128 = 0xFFFF_FFFF_FFFF_FFFF_FFFF_FFFF;

/// Largest scale (count of fractional digits) a decimal can carry.
pub const MAX_SCALE: u32 = 28;

/// A base-10 decimal number: the value `mantissa / 10^scale`.
///
/// `Dec { mantissa: 1234, scale: 2 }` is `12.34`.  Representations are not
/// unique (`1` and `1.00` differ in scale but not in value); equality and
/// order go by value, as [`Dec::units`] measures it.
#[derive(Clone, Copy, Debug)]
pub struct Dec {
    pub mantissa: i128,
    pub scale: u32,
}

/// `10^e` for `e >= 0`, and `1` below zero.
pub open spec fn pow10(e: int) -> int
    decreases e,
{
    if e <= 0 {
        1
    } else {
        10 * pow10(e - 1)
    }
}

impl Dec {
    /// The representation fits in 96 bits with a legal scale.
    pub open spec fn wf(self) -> bool {
        &&& -MAX_MANTISSA <= self.mantissa <= MAX_MANTISSA
        &&& self.scale <= MAX_SCALE
    }

    /// The value in units of `10^-28`: an exact integer for every legal
    /// scale, so values of different scales compare as plain integers.
    pub open spec fn units(self) -> int {
        self.mantissa * pow10(28 - self.scale)
    }

    /// The number `0`.
    pub open spec fn spec_zero() -> Dec {
        Dec { mantissa: 0, scale: 0 }
    }

    /// The number `1`.
    pub open spec fn spec_one() -> Dec {
        Dec { mantissa: 1, scale: 0 }
    }

    /// The decimal `mantissa / 10^scale`.
    pub fn new(mantissa: i128, scale: u32) -> (r: Dec)
        requires
            -MAX_MANTISSA <= mantissa <= MAX_MANTISSA,
            scale <= MAX_SCALE,
        ensures
            r == (Dec { mantissa, scale }),
            r.wf(),
    {
        Dec { mantissa, scale }
    }

    /// Whether the two decimals carry the same value, whatever their scales.
    pub fn value_eq(&self, other: &Dec) -> (r: bool)
        requires
            self.wf(),
            other.wf(),
        ensures
            r == (self.units() == other.units()),
    {
        dec_value_eq(self, other)
    }

    /// Whether this value is strictly below the other.
    pub fn value_lt(&self, other: &Dec) -> (r: bool)
        requires
            self.wf(),
            other.wf(),
        ensures
            r == (self.units() < other.units()),
    {
        dec_value_lt(self, other)
    }

    /// Whether this value is at or below the other.
    pub fn value_le(&self, other: &Dec) -> (r: bool)
        requires
            self.wf(),
            other.wf(),
        ensures
            r == (self.units() <= other.units()),
    {
        !dec_value_lt(other, self)
    }
}

/// The mantissa, as a mathematical integer.
pub open spec fn rep_m(d: Dec) -> int {
    d.mantissa as int
}

/// The scale, as a mathematical integer.
pub open spec fn rep_s(d: Dec) -> int {
    d.scale as int
}

/// The decimal with the given mantissa and scale.
pub open spec fn from_rep(t: (int, int)) -> Dec {
    Dec { mantissa: t.0 as i128, scale: t.1 as u32 }
}

/// Maps a mantissa-and-scale pair into a decimal, keeping `None`.
pub open spec fn lift_rep(o: Option<(int, int)>) -> Option<Dec> {
    match o {
        Some(t) => Some(from_rep(t)),
        None => None,
    }
}

pub uninterp spec fn sum_of(am: int, asc: int, bm: int, bsc: int) -> Option<(int, int)>;

pub uninterp spec fn diff_of(am: int, asc: int, bm: int, bsc: int) -> Option<(int, int)>;

pub uninterp spec fn prod_of(am: int, asc: int, bm: int, bsc: int) -> Option<(int, int)>;

pub uninterp spec fn quot_of(am: int, asc: int, bm: int, bsc: int) -> Option<(int, int)>;

pub uninterp spec fn powu_of(am: int, asc: int, e: int) -> Option<(int, int)>;

pub uninterp spec fn powd_of(am: int, asc: int, bm: int, bsc: int) -> Option<(int, int)>;

/// What `checked_add` returns on the two representations.
pub open spec fn sum_rep(a: Dec, b: Dec) -> Option<Dec> {
    lift_rep(sum_of(rep_m(a), rep_s(a), rep_m(b), rep_s(b)))
}

/// What `checked_sub` returns on the two representations.
pub open spec fn diff_rep(a: Dec, b: Dec) -> Option<Dec> {
    lift_rep(diff_of(rep_m(a), rep_s(a), rep_m(b), rep_s(b)))
}

/// What `checked_mul` returns on the two representations.
pub open spec fn prod_rep(a: Dec, b: Dec) -> Option<Dec> {
    lift_rep(prod_of(rep_m(a), rep_s(a), rep_m(b), rep_s(b)))
}

/// What `checked_div` returns on the two representations.
pub open spec fn quot_rep(a: Dec, b: Dec) -> Option<Dec> {
    lift_rep(quot_of(rep_m(a), rep_s(a), rep_m(b), rep_s(b)))
}

/// What `checked_powu` returns on the representation and exponent.
pub open spec fn powu_rep(a: Dec, e: int) -> Option<Dec> {
    lift_rep(powu_of(rep_m(a), rep_s(a), e))
}

/// What `checked_powd` returns on the two representations.
pub open spec fn powd_rep(a: Dec, b: Dec) -> Option<Dec> {
    lift_rep(powd_of(rep_m(a), rep_s(a), rep_m(b), rep_s(b)))
}

/// `n / d` rounded half to even, for `n >= 0` and `d >= 1`.
pub open spec fn half_even(n: int, d: int) -> int {
    let q = n / d;
    let r = n % d;
    if 2 * r > d {
        q + 1
    } else if 2 * r < d {
        q
    } else if q % 2 == 0 {
        q
    } else {
        q + 1
    }
}

/// What `round_dp(2)` returns: representations with at most two fractional
/// digits are kept; others are rounded half to even on the magnitude, the
/// sign kept, at scale two.
pub open spec fn round2_rep(m: int, s: int) -> (int, int) {
    if s <= 2 {
        (m, s)
    } else if m >= 0 {
        (half_even(m, pow10(s - 2)), 2)
    } else {
        (0 - half_even(0 - m, pow10(s - 2)), 2)
    }
}

/// The decimal rounded to two fractional digits, half to even.
pub open spec fn round2_spec(d: Dec) -> Dec {
    from_rep(round2_rep(rep_m(d), rep_s(d)))
}

/// The decimal clamped below at zero, by value: kept as it stands when its
/// value is at or above zero, replaced by the plain zero otherwise.
pub open spec fn clamp0_spec(d: Dec) -> Dec {
    if d.units() >= 0 {
        d
    } else {
        Dec::spec_zero()
    }
}

/// Relies on `rust_decimal`'s `Decimal::checked_add`: the checked sum of two
/// 96-bit decimals, `None` where the sum cannot be represented.
#[verifier::external_body]
pub(crate) fn dec_add(a: &Dec, b: &Dec) -> (r: Option<Dec>)
    requires
        a.wf(),
        b.wf(),
    ensures
        r == lift_rep(sum_of(rep_m(*a), rep_s(*a), rep_m(*b), rep_s(*b))),
        r matches Some(d) ==> d.wf(),
{
    let x = Decimal::from_i128_with_scale(a.mantissa, a.scale);
    let y = Decimal::from_i128_with_scale(b.mantissa, b.scale);
    match x.checked_add(y) {
        Some(d) => Some(Dec { mantissa: d.mantissa(), scale: d.scale() }),
        None => None,
    }
}

/// Relies on `rust_decimal`'s `Decimal::checked_sub`: the checked difference
/// of two 96-bit decimals, `None` where it cannot be represented.
#[verifier::external_body]
pub(crate) fn dec_sub(a: &Dec, b: &Dec) -> (r: Option<Dec>)
    requires
        a.wf(),
        b.wf(),
    ensures
        r == lift_rep(diff_of(rep_m(*a), rep_s(*a), rep_m(*b), rep_s(*b))),
        r matches Some(d) ==> d.wf(),
{
    let x = Decimal::from_i128_with_scale(a.mantissa, a.scale);
    let y = Decimal::from_i128_with_scale(b.mantissa, b.scale);
    match x.checked_sub(y) {
        Some(d) => Some(Dec { mantissa: d.mantissa(), scale: d.scale() }),
        None => None,
    }
}

/// Relies on `rust_decimal`'s `Decimal::checked_mul`: the checked product,
/// rounded to the 96-bit precision, `None` where it cannot be represented.
#[verifier::external_body]
pub(crate) fn dec_mul(a: &Dec, b: &Dec) -> (r: Option<Dec>)
    requires
        a.wf(),
        b.wf(),
    ensures
        r == lift_rep(prod_of(rep_m(*a), rep_s(*a), rep_m(*b), rep_s(*b))),
        r matches Some(d) ==> d.wf(),
{
    let x = Decimal::from_i128_with_scale(a.mantissa, a.scale);
    let y = Decimal::from_i128_with_scale(b.mantissa, b.scale);
    match x.checked_mul(y) {
        Some(d) => Some(Dec { mantissa: d.mantissa(), scale: d.scale() }),
        None => None,
    }
}

/// Relies on `rust_decimal`'s `Decimal::checked_div`: the checked quotient,
/// rounded to the 96-bit precision; `None` for a zero divisor or where the
/// quotient cannot be represented.
#[verifier::external_body]
pub(crate) fn dec_div(a: &Dec, b: &Dec) -> (r: Option<Dec>)
    requires
        a.wf(),
        b.wf(),
    ensures
        r == lift_rep(quot_of(rep_m(*a), rep_s(*a), rep_m(*b), rep_s(*b))),
        r matches Some(d) ==> d.wf(),
{
    let x = Decimal::from_i128_with_scale(a.mantissa, a.scale);
    let y = Decimal::from_i128_with_scale(b.mantissa, b.scale);
    match x.checked_div(y) {
        Some(d) => Some(Dec { mantissa: d.mantissa(), scale: d.scale() }),
        None => None,
    }
}

/// Relies on `rust_decimal`'s `MathematicalOps::checked_powu`: the checked
/// integer power, `None` where it cannot be represented.
#[verifier::external_body]
pub(crate) fn dec_powu(a: &Dec, e: u64) -> (r: Option<Dec>)
    requires
        a.wf(),
    ensures
        r == lift_rep(powu_of(rep_m(*a), rep_s(*a), e as int)),
        r matches Some(d) ==> d.wf(),
{
    let x = Decimal::from_i128_with_scale(a.mantissa, a.scale);
    match x.checked_powu(e) {
        Some(d) => Some(Dec { mantissa: d.mantissa(), scale: d.scale() }),
        None => None,
    }
}

/// Relies on `rust_decimal`'s `MathematicalOps::checked_powd`: the checked
/// decimal power, `None` where it cannot be represented.
#[verifier::external_body]
pub(crate) fn dec_powd(a: &Dec, b: &Dec) -> (r: Option<Dec>)
    requires
        a.wf(),
        b.wf(),
    ensures
        r == lift_rep(powd_of(rep_m(*a), rep_s(*a), rep_m(*b), rep_s(*b))),
        r matches Some(d) ==> d.wf(),
{
    let x = Decimal::from_i128_with_scale(a.mantissa, a.scale);
    let y = Decimal::from_i128_with_scale(b.mantissa, b.scale);
    match x.checked_powd(y) {
        Some(d) => Some(Dec { mantissa: d.mantissa(), scale: d.scale() }),
        None => None,
    }
}

/// Relies on `rust_decimal`'s `Decimal::round_dp(2)`: rounding to two
/// fractional digits, half to even on the magnitude, the sign kept.
#[verifier::external_body]
pub(crate) fn dec_round2(a: &Dec) -> (r: Dec)
    requires
        a.wf(),
    ensures
        r == round2_spec(*a),
        r.wf(),
{
    let x = Decimal::from_i128_with_scale(a.mantissa, a.scale);
    let d = x.round_dp(2);
    Dec { mantissa: d.mantissa(), scale: d.scale() }
}

/// Relies on the inherent `Decimal::max`, which compares by numeric value
/// and returns the second argument only where it is strictly the greater:
/// on value-equal arguments the first one, representation and all.
#[verifier::external_body]
pub(crate) fn dec_max(a: &Dec, b: &Dec) -> (r: Dec)
    requires
        a.wf(),
        b.wf(),
    ensures
        r == (if a.units() >= b.units() { *a } else { *b }),
{
    let x = Decimal::from_i128_with_scale(a.mantissa, a.scale);
    let y = Decimal::from_i128_with_scale(b.mantissa, b.scale);
    let d = x.max(y);
    Dec { mantissa: d.mantissa(), scale: d.scale() }
}

/// Relies on `Decimal`'s `PartialEq`, which compares by numeric value.
#[verifier::external_body]
pub(crate) fn dec_value_eq(a: &Dec, b: &Dec) -> (r: bool)
    requires
        a.wf(),
        b.wf(),
    ensures
        r == (a.units() == b.units()),
{
    let x = Decimal::from_i128_with_scale(a.mantissa, a.scale);
    let y = Decimal::from_i128_with_scale(b.mantissa, b.scale);
    x == y
}

/// Relies on `Decimal`'s `Ord`, which orders by numeric value.
#[verifier::external_body]
pub(crate) fn dec_value_lt(a: &Dec, b: &Dec) -> (r: bool)
    requires
        a.wf(),
        b.wf(),
    ensures
        r == (a.units() < b.units()),
{
    let x = Decimal::from_i128_with_scale(a.mantissa, a.scale);
    let y = Decimal::from_i128_with_scale(b.mantissa, b.scale);
    x < y
}

} // verus!
