//! Decimal amounts of money.
//!
//! An [`Amount`] is the pair of a signed 96-bit mantissa `m` and a scale `e`
//! between 0 and 28, and stands for the number `m / 10^e`. Ordering is decided
//! and sums and differences are computed by the `rust_decimal` crate.

use rust_decimal::Decimal;
use vstd::arithmetic::power::{lemma_pow0, lemma_pow_positive, pow};
use vstd::prelude::*;

verus! {

/// Largest mantissa an amount can carry: `2^96 - 1`.
pub const MAX_MANTISSA: i128 = 79_228_162_514_264_337_593_543_950_335;

/// Largest scale an amount can carry.
pub const MAX_SCALE: u32 = 28;

/// What `rust_decimal` gives for the sum of two decimals, each written as its
/// mantissa and scale: the mantissa and scale of the sum, or `None` where the
/// crate reports an overflow.
pub uninterp spec fn decimal_sum(
    a_mantissa: i128,
    a_scale: u32,
    b_mantissa: i128,
    b_scale: u32,
) -> Option<(i128, u32)>;

/// What `rust_decimal` gives for the first decimal minus the second, each
/// written as its mantissa and scale, or `None` where the crate reports an
/// overflow.
pub uninterp spec fn decimal_difference(
    a_mantissa: i128,
    a_scale: u32,
    b_mantissa: i128,
    b_scale: u32,
) -> Option<(i128, u32)>;

/// A decimal number `mantissa / 10^scale`.
///
/// `==` compares the representation: `1.0` and `1` are different amounts
/// though neither is less than the other.
#[derive(Debug, Clone, Copy, PartialEq, Eq, Structural)]
pub struct Amount {
    mantissa: i128,
    scale: u32,
}

/// Whether a mantissa and a scale are within the limits of an amount.
pub open spec fn representable(mantissa: i128, scale: u32) -> bool {
    -MAX_MANTISSA <= mantissa <= MAX_MANTISSA && scale <= MAX_SCALE
}

impl Amount {
    /// Every amount keeps its mantissa within 96 bits and its scale within 28.
    #[verifier::type_invariant]
    pub closed spec fn wf(self) -> bool {
        representable(self.mantissa, self.scale)
    }

    /// The mantissa `m` of `m / 10^e`.
    pub closed spec fn spec_mantissa(self) -> i128 {
        self.mantissa
    }

    /// The scale `e` of `m / 10^e`.
    pub closed spec fn spec_scale(self) -> u32 {
        self.scale
    }

    /// The amount with the given mantissa and scale.
    pub closed spec fn of(mantissa: i128, scale: u32) -> Amount {
        Amount { mantissa, scale }
    }

    /// Zero, with scale 0.
    pub open spec fn spec_zero() -> Amount {
        Amount::of(0, 0)
    }

    /// `self < other` as numbers: both sides are brought to a common
    /// denominator and the numerators compared.
    pub open spec fn less_than(self, other: Amount) -> bool {
        self.spec_mantissa() * pow(10, other.spec_scale() as nat) < other.spec_mantissa() * pow(
            10,
            self.spec_scale() as nat,
        )
    }

    /// `self > 0`.
    pub open spec fn is_positive(self) -> bool {
        Amount::spec_zero().less_than(self)
    }

    /// `self + other` as the decimal arithmetic computes it, `None` on overflow.
    pub open spec fn sum(self, other: Amount) -> Option<Amount> {
        match decimal_sum(
            self.spec_mantissa(),
            self.spec_scale(),
            other.spec_mantissa(),
            other.spec_scale(),
        ) {
            Some((mantissa, scale)) => Some(Amount::of(mantissa, scale)),
            None => None,
        }
    }

    /// `self - other` as the decimal arithmetic computes it, `None` on overflow.
    pub open spec fn difference(self, other: Amount) -> Option<Amount> {
        match decimal_difference(
            self.spec_mantissa(),
            self.spec_scale(),
            other.spec_mantissa(),
            other.spec_scale(),
        ) {
            Some((mantissa, scale)) => Some(Amount::of(mantissa, scale)),
            None => None,
        }
    }

    /// The parts of `Amount::of(mantissa, scale)` are `mantissa` and `scale`.
    pub proof fn lemma_parts_of(mantissa: i128, scale: u32)
        ensures
            Amount::of(mantissa, scale).spec_mantissa() == mantissa,
            Amount::of(mantissa, scale).spec_scale() == scale,
    {
    }

    /// An amount is positive exactly when its mantissa is.
    pub proof fn lemma_positive_mantissa(self)
        ensures
            self.is_positive() <==> self.spec_mantissa() > 0,
    {
        lemma_pow0(10);
        lemma_pow_positive(10, self.scale as nat);
    }

    /// The amount `mantissa / 10^scale`, or `None` where the mantissa needs
    /// more than 96 bits or the scale is above 28.
    pub fn new(mantissa: i128, scale: u32) -> (r: Option<Amount>)
        ensures
            r is Some <==> representable(mantissa, scale),
            r is Some ==> r == Some(Amount::of(mantissa, scale)),
    {
        if -MAX_MANTISSA <= mantissa && mantissa <= MAX_MANTISSA && scale <= MAX_SCALE {
            Some(Amount { mantissa, scale })
        } else {
            None
        }
    }

    /// Zero, with scale 0.
    #[verifier::when_used_as_spec(spec_zero)]
    pub fn zero() -> (r: Amount)
        ensures
            r == Amount::spec_zero(),
    {
        Amount { mantissa: 0, scale: 0 }
    }

    /// The whole number `n`, with scale 0.
    pub fn from_int(n: i64) -> (r: Amount)
        ensures
            r == Amount::of(n as i128, 0),
    {
        Amount { mantissa: n as i128, scale: 0 }
    }

    /// The mantissa `m` of `m / 10^e`.
    #[verifier::when_used_as_spec(spec_mantissa)]
    pub fn mantissa(self) -> (r: i128)
        ensures
            r == self.spec_mantissa(),
            representable(r, self.spec_scale()),
    {
        proof {
            use_type_invariant(&self);
        }
        self.mantissa
    }

    /// The scale `e` of `m / 10^e`.
    #[verifier::when_used_as_spec(spec_scale)]
    pub fn scale(self) -> (r: u32)
        ensures
            r == self.spec_scale(),
            representable(self.spec_mantissa(), r),
    {
        proof {
            use_type_invariant(&self);
        }
        self.scale
    }

    /// `self + other`, or `None` where the sum cannot be represented.
    pub fn checked_add(self, other: Amount) -> (r: Option<Amount>)
        ensures
            r == self.sum(other),
    {
        proof {
            use_type_invariant(&self);
            use_type_invariant(&other);
        }
        decimal_checked_add(self, other)
    }

    /// `self - other`, or `None` where the difference cannot be represented.
    pub fn checked_sub(self, other: Amount) -> (r: Option<Amount>)
        ensures
            r == self.difference(other),
            self.spec_mantissa() == 0 && other.spec_mantissa() == 0 ==> r == Some(other),
    {
        proof {
            use_type_invariant(&self);
            use_type_invariant(&other);
        }
        decimal_checked_sub(self, other)
    }

    /// Whether `self < other` as numbers.
    pub fn lt(&self, other: &Amount) -> (r: bool)
        ensures
            r == self.less_than(*other),
    {
        proof {
            use_type_invariant(self);
            use_type_invariant(other);
        }
        decimal_less_than(*self, *other)
    }

    /// Whether `self > 0`.
    pub fn positive(&self) -> (r: bool)
        ensures
            r == self.is_positive(),
    {
        Amount::zero().lt(self)
    }
}

/// Calls `rust_decimal::Decimal::checked_add` on the two decimals that `a` and
/// `b` stand for. Trusted: the result is the crate's sum, `None` on overflow,
/// and what the crate hands back is a decimal, so within the limits of an
/// amount.
#[verifier::external_body]
fn decimal_checked_add(a: Amount, b: Amount) -> (r: Option<Amount>)
    requires
        a.wf(),
        b.wf(),
    ensures
        match r {
            Some(v) => v.wf() && decimal_sum(a.mantissa, a.scale, b.mantissa, b.scale) == Some(
                (v.mantissa, v.scale),
            ),
            None => decimal_sum(a.mantissa, a.scale, b.mantissa, b.scale) is None,
        },
{
    let x = Decimal::from_i128_with_scale(a.mantissa, a.scale);
    let y = Decimal::from_i128_with_scale(b.mantissa, b.scale);
    match x.checked_add(y) {
        Some(z) => Some(Amount { mantissa: z.mantissa(), scale: z.scale() }),
        None => None,
    }
}

/// Calls `rust_decimal::Decimal::checked_sub` on the two decimals that `a` and
/// `b` stand for. Trusted: the result is the crate's `a - b`, `None` on
/// overflow; what the crate hands back is a decimal, so within the limits of
/// an amount; and zero minus zero is the second zero as it stands.
#[verifier::external_body]
fn decimal_checked_sub(a: Amount, b: Amount) -> (r: Option<Amount>)
    requires
        a.wf(),
        b.wf(),
    ensures
        match r {
            Some(v) => v.wf() && decimal_difference(a.mantissa, a.scale, b.mantissa, b.scale)
                == Some((v.mantissa, v.scale)),
            None => decimal_difference(a.mantissa, a.scale, b.mantissa, b.scale) is None,
        },
        a.mantissa == 0 && b.mantissa == 0 ==> r == Some(b),
{
    let x = Decimal::from_i128_with_scale(a.mantissa, a.scale);
    let y = Decimal::from_i128_with_scale(b.mantissa, b.scale);
    match x.checked_sub(y) {
        Some(z) => Some(Amount { mantissa: z.mantissa(), scale: z.scale() }),
        None => None,
    }
}

/// Compares the two decimals that `a` and `b` stand for with `<`, which
/// `rust_decimal` implements for `Decimal`. Trusted: the crate orders decimals
/// by the numbers they stand for, whatever their scales.
#[verifier::external_body]
fn decimal_less_than(a: Amount, b: Amount) -> (r: bool)
    requires
        a.wf(),
        b.wf(),
    ensures
        r == (a.mantissa * pow(10, b.scale as nat) < b.mantissa * pow(10, a.scale as nat)),
{
    let x = Decimal::from_i128_with_scale(a.mantissa, a.scale);
    let y = Decimal::from_i128_with_scale(b.mantissa, b.scale);
    x < y
}

} // verus!
