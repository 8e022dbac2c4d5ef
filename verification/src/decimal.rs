//! Exact decimal amounts. An [`Amount`] holds the two integers that make up a
//! decimal number, and the arithmetic on amounts is carried out by the
//! `rust_decimal` crate.
//!
//! Every `Amount` lies within the range of `rust_decimal::Decimal`: a
//! mantissa of at most 96 bits and a scale of at most 28. The functions that
//! call the crate build their `Decimal` arguments with
//! `Decimal::from_i128_with_scale`, which accepts every value in that range,
//! and read the results back with `Decimal::mantissa` and `Decimal::scale`.
//! A zero `Amount` has no sign.

use rust_decimal::Decimal;
use rust_decimal::RoundingStrategy;
use vstd::prelude::*;

verus! {

/// Largest number of fractional digits an amount can carry.
pub const MAX_SCALE: u32 = 28;

/// Largest magnitude of a mantissa: `2^96 - 1`.
pub const MAX_MANTISSA: i128 = 0x0000_0000_FFFF_FFFF_FFFF_FFFF_FFFF_FFFF;

/// Ten raised to the power `n`.
pub open spec fn pow10(n: nat) -> int
    decreases n,
{
    if n == 0 {
        1
    } else {
        10 * pow10((n - 1) as nat)
    }
}

/// The decimal number `mantissa / 10^scale`.
#[derive(Clone, Copy, Debug)]
pub struct Amount {
    mantissa: i128,
    scale: u32,
}

impl Amount {
    /// Every amount keeps its mantissa within 96 bits and its scale within
    /// 28 digits.
    #[verifier::type_invariant]
    pub open spec fn in_range(self) -> bool {
        &&& -MAX_MANTISSA <= self.spec_mantissa() <= MAX_MANTISSA
        &&& self.spec_scale() <= MAX_SCALE
    }

    /// The integer `m` of the amount `m / 10^e`.
    pub closed spec fn spec_mantissa(self) -> int {
        self.mantissa as int
    }

    /// The exponent `e` of the amount `m / 10^e`.
    pub closed spec fn spec_scale(self) -> nat {
        self.scale as nat
    }

    /// The amount in units of `10^-28`, by which amounts of different scales
    /// are compared.
    pub open spec fn units(self) -> int {
        self.spec_mantissa() * pow10((MAX_SCALE - self.spec_scale()) as nat)
    }

    /// Whether the amount lies below zero.
    pub open spec fn spec_is_negative(self) -> bool {
        self.spec_mantissa() < 0
    }

    /// Builds `mantissa / 10^scale`, or nothing where the mantissa does not
    /// fit in 96 bits or the scale exceeds 28.
    pub fn from_parts(mantissa: i128, scale: u32) -> (amount: Option<Amount>)
        ensures
            amount is Some <==> (-MAX_MANTISSA <= mantissa <= MAX_MANTISSA && scale <= MAX_SCALE),
            amount matches Some(a) ==> a == Amount::spec_new(mantissa as int, scale as nat)
                && a.spec_mantissa() == mantissa && a.spec_scale() == scale,
    {
        if scale <= MAX_SCALE && -MAX_MANTISSA <= mantissa && mantissa <= MAX_MANTISSA {
            Some(Amount { mantissa, scale })
        } else {
            None
        }
    }

    /// The amount `mantissa / 10^scale`.
    pub closed spec fn spec_new(mantissa: int, scale: nat) -> Amount {
        Amount { mantissa: mantissa as i128, scale: scale as u32 }
    }

    /// Zero with no fractional digits.
    pub open spec fn spec_zero() -> Amount {
        Amount::spec_new(0, 0)
    }

    /// Builds `mantissa / 10^scale` from a 64-bit mantissa and a scale of at
    /// most 28.
    pub fn new(mantissa: i64, scale: u32) -> (amount: Amount)
        requires
            scale <= MAX_SCALE,
        ensures
            amount == Amount::spec_new(mantissa as int, scale as nat),
            amount.spec_mantissa() == mantissa,
            amount.spec_scale() == scale,
    {
        Amount { mantissa: mantissa as i128, scale }
    }

    /// The amount zero, with no fractional digits.
    pub fn zero() -> (amount: Amount)
        ensures
            amount == Amount::spec_zero(),
            amount.spec_mantissa() == 0,
            amount.spec_scale() == 0,
    {
        Amount { mantissa: 0, scale: 0 }
    }

    /// The mantissa `m` of the amount `m / 10^e`.
    pub fn mantissa(&self) -> (m: i128)
        ensures
            m == self.spec_mantissa(),
            self.in_range(),
    {
        proof {
            use_type_invariant(self);
        }
        self.mantissa
    }

    /// The scale `e` of the amount `m / 10^e`.
    pub fn scale(&self) -> (e: u32)
        ensures
            e == self.spec_scale(),
            self.in_range(),
    {
        proof {
            use_type_invariant(self);
        }
        self.scale
    }

    /// Whether the amount lies below zero.
    pub fn is_negative(&self) -> (negative: bool)
        ensures
            negative == self.spec_is_negative(),
    {
        self.mantissa < 0
    }

    /// Whether two amounts denote the same number, whatever their scales.
    pub fn same_number(&self, other: &Amount) -> (same: bool)
        ensures
            same == (self.units() == other.units()),
    {
        amount_eq(*self, *other)
    }

    /// Whether `self` denotes a greater number than `other`.
    pub fn exceeds(&self, other: &Amount) -> (greater: bool)
        ensures
            greater == (self.units() > other.units()),
    {
        amount_gt(*self, *other)
    }

    /// Prints the amount with as many fractional digits as its scale.
    pub fn to_text(&self) -> (text: String)
        ensures
            text@ == decimal_text(*self),
    {
        amount_text(*self)
    }
}

/// Every power of ten is positive.
pub proof fn lemma_pow10_positive(n: nat)
    ensures
        pow10(n) > 0,
    decreases n,
{
    if n > 0 {
        lemma_pow10_positive((n - 1) as nat);
    }
}

/// An amount built from a mantissa within 96 bits and a scale of at most 28
/// has that mantissa and that scale, and two amounts with the same parts are
/// the same amount.
pub proof fn lemma_new_parts(mantissa: int, scale: nat)
    requires
        -MAX_MANTISSA <= mantissa <= MAX_MANTISSA,
        scale <= MAX_SCALE,
    ensures
        Amount::spec_new(mantissa, scale).spec_mantissa() == mantissa,
        Amount::spec_new(mantissa, scale).spec_scale() == scale,
        Amount::spec_new(mantissa, scale).in_range(),
        forall|a: Amount|
            a.spec_mantissa() == mantissa && a.spec_scale() == scale ==> a == Amount::spec_new(
                mantissa,
                scale,
            ),
{
}

/// Zero has mantissa zero and scale zero, and is worth nothing.
pub proof fn lemma_zero_parts()
    ensures
        Amount::spec_zero().spec_mantissa() == 0,
        Amount::spec_zero().spec_scale() == 0,
        Amount::spec_zero().units() == 0,
{
    lemma_new_parts(0, 0);
    assert(0 * pow10(28) == 0);
}

/// Amounts of the same scale compare as their mantissas do.
pub proof fn lemma_same_scale_order(a: Amount, b: Amount)
    requires
        a.spec_scale() == b.spec_scale(),
        a.spec_scale() <= MAX_SCALE,
    ensures
        a.units() == b.units() <==> a.spec_mantissa() == b.spec_mantissa(),
        a.units() > b.units() <==> a.spec_mantissa() > b.spec_mantissa(),
{
    let p = pow10((MAX_SCALE - a.spec_scale()) as nat);
    lemma_pow10_positive((MAX_SCALE - a.spec_scale()) as nat);
    let x = a.spec_mantissa();
    let y = b.spec_mantissa();
    assert((x * p == y * p <==> x == y) && (x * p > y * p <==> x > y)) by (nonlinear_arith)
        requires
            p > 0,
    ;
}

/// The absolute value of an amount in range has the magnitude of its
/// mantissa and its scale, and is in range.
pub proof fn lemma_absolute_parts(a: Amount)
    requires
        a.in_range(),
    ensures
        absolute(a).spec_scale() == a.spec_scale(),
        absolute(a).spec_mantissa() == if a.spec_mantissa() < 0 {
            -a.spec_mantissa()
        } else {
            a.spec_mantissa()
        },
        absolute(a).in_range(),
{
    lemma_new_parts(
        if a.spec_mantissa() < 0 {
            -a.spec_mantissa()
        } else {
            a.spec_mantissa()
        },
        a.spec_scale(),
    );
}

/// An amount in range, rounded, has the rounded mantissa and the rounded
/// scale, and is in range.
pub proof fn lemma_rounded_parts(a: Amount, dp: nat)
    requires
        a.in_range(),
    ensures
        rounded(a, dp).spec_mantissa() == rounded_mantissa(a, dp),
        rounded(a, dp).spec_scale() == rounded_scale(a, dp),
        rounded(a, dp).in_range(),
{
    if a.spec_scale() > dp {
        let k = (a.spec_scale() - dp) as nat;
        let p = pow10(k);
        lemma_pow10_positive((k - 1) as nat);
        assert(p >= 10);
        let magnitude = if a.spec_mantissa() < 0 {
            -a.spec_mantissa()
        } else {
            a.spec_mantissa()
        };
        assert(0 <= magnitude / p <= magnitude / 10) by (nonlinear_arith)
            requires
                p >= 10,
                magnitude >= 0,
        ;
    }
    lemma_new_parts(rounded_mantissa(a, dp), rounded_scale(a, dp));
}

impl PartialEq for Amount {
    /// Two amounts are equal when they denote the same number.
    fn eq(&self, other: &Amount) -> (same: bool) {
        amount_eq(*self, *other)
    }
}

impl vstd::std_specs::cmp::PartialEqSpecImpl for Amount {
    open spec fn obeys_eq_spec() -> bool {
        true
    }

    open spec fn eq_spec(&self, other: &Amount) -> bool {
        self.units() == other.units()
    }
}

/// The sum that `rust_decimal` computes for two amounts, or nothing where it
/// reports an overflow.
pub uninterp spec fn decimal_sum(a: Amount, b: Amount) -> Option<Amount>;

/// The difference that `rust_decimal` computes for two amounts, or nothing
/// where it reports an overflow.
pub uninterp spec fn decimal_difference(a: Amount, b: Amount) -> Option<Amount>;

/// The product that `rust_decimal` computes for two amounts, or nothing where
/// it reports an overflow.
pub uninterp spec fn decimal_product(a: Amount, b: Amount) -> Option<Amount>;

/// The text that `rust_decimal` prints for an amount.
pub uninterp spec fn decimal_text(a: Amount) -> Seq<char>;

/// Mantissa of `a` rounded to `dp` fractional digits, ties going away from
/// zero. Amounts that already have at most `dp` fractional digits keep their
/// mantissa.
pub open spec fn rounded_mantissa(a: Amount, dp: nat) -> int {
    if a.spec_scale() <= dp {
        a.spec_mantissa()
    } else {
        let p = pow10((a.spec_scale() - dp) as nat);
        let magnitude = if a.spec_mantissa() < 0 {
            -a.spec_mantissa()
        } else {
            a.spec_mantissa()
        };
        let quotient = magnitude / p;
        let remainder = magnitude % p;
        let rounded = if 2 * remainder >= p {
            quotient + 1
        } else {
            quotient
        };
        if a.spec_mantissa() < 0 {
            -rounded
        } else {
            rounded
        }
    }
}

/// Scale of `a` after rounding to `dp` fractional digits.
pub open spec fn rounded_scale(a: Amount, dp: nat) -> nat {
    if a.spec_scale() <= dp {
        a.spec_scale()
    } else {
        dp
    }
}

/// `a` rounded to `dp` fractional digits, ties going away from zero.
pub open spec fn rounded(a: Amount, dp: nat) -> Amount {
    Amount::spec_new(rounded_mantissa(a, dp), rounded_scale(a, dp))
}

/// The absolute value of `a`, at the scale of `a`.
pub open spec fn absolute(a: Amount) -> Amount {
    Amount::spec_new(
        if a.spec_mantissa() < 0 {
            -a.spec_mantissa()
        } else {
            a.spec_mantissa()
        },
        a.spec_scale(),
    )
}

/// Calls `Decimal::eq`. Two decimals are equal when they denote the same
/// number, whatever their scales: `1.0` equals `1.00`.
#[verifier::external_body]
pub(crate) fn amount_eq(a: Amount, b: Amount) -> (same: bool)
    ensures
        same == (a.units() == b.units()),
{
    Decimal::from_i128_with_scale(a.mantissa, a.scale)
        == Decimal::from_i128_with_scale(b.mantissa, b.scale)
}

/// Calls `Decimal::gt`. Decimals are ordered by the numbers they denote.
#[verifier::external_body]
pub(crate) fn amount_gt(a: Amount, b: Amount) -> (greater: bool)
    ensures
        greater == (a.units() > b.units()),
{
    Decimal::from_i128_with_scale(a.mantissa, a.scale)
        > Decimal::from_i128_with_scale(b.mantissa, b.scale)
}

/// Calls `Decimal::checked_add`, which returns nothing on overflow. The
/// result is named, not described: the crate rounds some sums of amounts with
/// different scales.
#[verifier::external_body]
pub(crate) fn checked_sum(a: Amount, b: Amount) -> (sum: Option<Amount>)
    ensures
        sum == decimal_sum(a, b),
{
    let left = Decimal::from_i128_with_scale(a.mantissa, a.scale);
    let right = Decimal::from_i128_with_scale(b.mantissa, b.scale);
    match left.checked_add(right) {
        Some(d) => Some(Amount { mantissa: d.mantissa(), scale: d.scale() }),
        None => None,
    }
}

/// Calls `Decimal::checked_sub`, which returns nothing on overflow. The
/// result is named, not described.
#[verifier::external_body]
pub(crate) fn checked_difference(a: Amount, b: Amount) -> (difference: Option<Amount>)
    ensures
        difference == decimal_difference(a, b),
{
    let left = Decimal::from_i128_with_scale(a.mantissa, a.scale);
    let right = Decimal::from_i128_with_scale(b.mantissa, b.scale);
    match left.checked_sub(right) {
        Some(d) => Some(Amount { mantissa: d.mantissa(), scale: d.scale() }),
        None => None,
    }
}

/// Calls `Decimal::checked_mul`, which returns nothing on overflow. The
/// result is named, not described: the crate rounds products that need more
/// than 28 fractional digits or 96 bits.
#[verifier::external_body]
pub(crate) fn checked_product(a: Amount, b: Amount) -> (product: Option<Amount>)
    ensures
        product == decimal_product(a, b),
{
    let left = Decimal::from_i128_with_scale(a.mantissa, a.scale);
    let right = Decimal::from_i128_with_scale(b.mantissa, b.scale);
    match left.checked_mul(right) {
        Some(d) => Some(Amount { mantissa: d.mantissa(), scale: d.scale() }),
        None => None,
    }
}

/// Calls `Decimal::abs`, which clears the sign and keeps the scale.
#[verifier::external_body]
pub(crate) fn magnitude(a: Amount) -> (m: Amount)
    ensures
        m == absolute(a),
        m.spec_scale() == a.spec_scale(),
        m.spec_mantissa() == if a.spec_mantissa() < 0 {
            -a.spec_mantissa()
        } else {
            a.spec_mantissa()
        },
{
    let d = Decimal::from_i128_with_scale(a.mantissa, a.scale).abs();
    Amount { mantissa: d.mantissa(), scale: d.scale() }
}

/// Calls `Decimal::round_dp_with_strategy` with the strategy
/// `MidpointAwayFromZero`: an amount with more than `dp` fractional digits
/// is cut to `dp` digits, and its last digit is raised by one where the part
/// cut off is at least half a unit of that digit.
#[verifier::external_body]
pub(crate) fn round_half_away(a: Amount, dp: u32) -> (r: Amount)
    ensures
        r == rounded(a, dp as nat),
        r.spec_mantissa() == rounded_mantissa(a, dp as nat),
        r.spec_scale() == rounded_scale(a, dp as nat),
{
    let d = Decimal::from_i128_with_scale(a.mantissa, a.scale)
        .round_dp_with_strategy(dp, RoundingStrategy::MidpointAwayFromZero);
    Amount { mantissa: d.mantissa(), scale: d.scale() }
}

/// Calls `Decimal::to_string`. The text is named, not described.
#[verifier::external_body]
pub(crate) fn amount_text(a: Amount) -> (text: String)
    ensures
        text@ == decimal_text(a),
{
    Decimal::from_i128_with_scale(a.mantissa, a.scale).to_string()
}

} // verus!
