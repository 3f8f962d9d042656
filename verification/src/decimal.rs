//! Decimal quantities (voltages, frequencies) as plain integers.
//!
//! A [`Dec`] holds the two integers from which `rust_decimal` builds a
//! `Decimal`: a mantissa of at most 96 bits and a scale of at most 28, the
//! number being `mantissa / 10^scale`. The arithmetic is that of
//! `rust_decimal`; its rescaling and rounding are not restated here, so each
//! result is named by an uninterpreted function of the operands.

use vstd::prelude::*;

verus! {

/// The largest scale of a [`Dec`].
pub const MAX_SCALE: u32 = 28;

/// The largest magnitude of the mantissa of a [`Dec`]: `2^96 - 1`.
pub const MAX_MANTISSA: i128 = 0xFFFF_FFFF_FFFF_FFFF_FFFF_FFFF;

/// The decimal number `mantissa / 10^scale`.
///
/// Two values are equal where their mantissas and their scales are: `1.80`
/// and `1.8` are the same number and different values.
#[derive(Clone, Copy, Debug, PartialEq, Eq, Structural)]
pub struct Dec {
    mantissa: i128,
    scale: u32,
}

impl View for Dec {
    type V = (int, nat);

    /// The mantissa and the scale.
    closed spec fn view(&self) -> (int, nat) {
        (self.mantissa as int, self.scale as nat)
    }
}

/// Whether a mantissa and a scale are those of some [`Dec`].
pub open spec fn representable(mantissa: int, scale: nat) -> bool {
    -MAX_MANTISSA <= mantissa <= MAX_MANTISSA && scale <= MAX_SCALE
}

/// The mantissa and scale of the product that `rust_decimal` computes for two
/// decimals given by theirs, or `None` where it reports an overflow.
pub uninterp spec fn decimal_product(
    a_mantissa: int,
    a_scale: nat,
    b_mantissa: int,
    b_scale: nat,
) -> Option<(int, nat)>;

/// The mantissa and scale of the quotient that `rust_decimal` computes for
/// two decimals given by theirs, or `None` where it reports a division by
/// zero or an overflow.
pub uninterp spec fn decimal_quotient(
    a_mantissa: int,
    a_scale: nat,
    b_mantissa: int,
    b_scale: nat,
) -> Option<(int, nat)>;

/// The mantissa and scale of the sum that `rust_decimal` computes for two
/// decimals given by theirs, or `None` where it reports an overflow.
pub uninterp spec fn decimal_sum(
    a_mantissa: int,
    a_scale: nat,
    b_mantissa: int,
    b_scale: nat,
) -> Option<(int, nat)>;

/// The mantissa and scale of the difference that `rust_decimal` computes for
/// two decimals given by theirs, or `None` where it reports an overflow.
pub uninterp spec fn decimal_difference(
    a_mantissa: int,
    a_scale: nat,
    b_mantissa: int,
    b_scale: nat,
) -> Option<(int, nat)>;

/// The view of an optional decimal.
pub open spec fn opt_view(d: Option<Dec>) -> Option<(int, nat)> {
    match d {
        Some(d) => Some(d@),
        None => None,
    }
}

impl Dec {
    #[verifier::type_invariant]
    spec fn in_range(self) -> bool {
        representable(self.mantissa as int, self.scale as nat)
    }

    /// The decimal `mantissa / 10^scale`, if the two are in range.
    pub fn new(mantissa: i128, scale: u32) -> (r: Option<Dec>)
        ensures
            r is Some <==> representable(mantissa as int, scale as nat),
            r matches Some(d) ==> d@ == (mantissa as int, scale as nat),
    {
        if scale <= MAX_SCALE && -MAX_MANTISSA <= mantissa && mantissa <= MAX_MANTISSA {
            Some(Dec { mantissa, scale })
        } else {
            None
        }
    }

    /// The integer `n` as a decimal of scale zero.
    pub fn from_usize(n: usize) -> (d: Dec)
        ensures
            d@ == (n as int, 0nat),
    {
        Dec { mantissa: n as i128, scale: 0 }
    }

    /// The mantissa.
    pub fn mantissa(&self) -> (m: i128)
        ensures
            m == self@.0,
            representable(self@.0, self@.1),
    {
        proof {
            use_type_invariant(self);
        }
        self.mantissa
    }

    /// The scale.
    pub fn scale(&self) -> (s: u32)
        ensures
            s == self@.1,
            representable(self@.0, self@.1),
    {
        proof {
            use_type_invariant(self);
        }
        self.scale
    }

    /// `self * rhs` as `rust_decimal` computes it, `None` on overflow. A
    /// product with zero is zero, of scale zero.
    pub fn checked_mul(self, rhs: Dec) -> (r: Option<Dec>)
        ensures
            opt_view(r) == decimal_product(self@.0, self@.1, rhs@.0, rhs@.1),
            self@.0 == 0 || rhs@.0 == 0 ==> opt_view(r) == Some((0int, 0nat)),
    {
        proof {
            use_type_invariant(self);
            use_type_invariant(rhs);
        }
        decimal_checked_mul(self.mantissa, self.scale, rhs.mantissa, rhs.scale)
    }

    /// `self + rhs` as `rust_decimal` computes it, `None` on overflow.
    pub fn checked_add(self, rhs: Dec) -> (r: Option<Dec>)
        ensures
            opt_view(r) == decimal_sum(self@.0, self@.1, rhs@.0, rhs@.1),
    {
        proof {
            use_type_invariant(self);
            use_type_invariant(rhs);
        }
        decimal_checked_add(self.mantissa, self.scale, rhs.mantissa, rhs.scale)
    }

    /// `self - rhs` as `rust_decimal` computes it, `None` on overflow.
    pub fn checked_sub(self, rhs: Dec) -> (r: Option<Dec>)
        ensures
            opt_view(r) == decimal_difference(self@.0, self@.1, rhs@.0, rhs@.1),
    {
        proof {
            use_type_invariant(self);
            use_type_invariant(rhs);
        }
        decimal_checked_sub(self.mantissa, self.scale, rhs.mantissa, rhs.scale)
    }

    /// `self / rhs` as `rust_decimal` computes it, `None` on a zero divisor
    /// or an overflow. Zero divided by anything but zero is zero, of scale
    /// zero.
    pub fn checked_div(self, rhs: Dec) -> (r: Option<Dec>)
        ensures
            opt_view(r) == decimal_quotient(self@.0, self@.1, rhs@.0, rhs@.1),
            self@.0 == 0 && rhs@.0 != 0 ==> opt_view(r) == Some((0int, 0nat)),
    {
        proof {
            use_type_invariant(self);
            use_type_invariant(rhs);
        }
        decimal_checked_div(self.mantissa, self.scale, rhs.mantissa, rhs.scale)
    }
}

/// Calls `rust_decimal::Decimal::checked_mul` on the decimals built from the
/// given mantissas and scales by `Decimal::from_i128_with_scale`, which takes
/// every representable pair. Claimed: the mantissa and scale of the product
/// depend on the operands alone, `None` comes back exactly where the crate
/// reports an overflow, and where an operand is zero the crate answers with
/// its constant zero, before it looks at the scales. The parts of a result
/// are those of a `Decimal` and so in range.
#[verifier::external_body]
fn decimal_checked_mul(a_mantissa: i128, a_scale: u32, b_mantissa: i128, b_scale: u32) -> (r:
    Option<Dec>)
    requires
        representable(a_mantissa as int, a_scale as nat),
        representable(b_mantissa as int, b_scale as nat),
    ensures
        opt_view(r) == decimal_product(
            a_mantissa as int,
            a_scale as nat,
            b_mantissa as int,
            b_scale as nat,
        ),
        a_mantissa == 0 || b_mantissa == 0 ==> opt_view(r) == Some((0int, 0nat)),
{
    let a = rust_decimal::Decimal::from_i128_with_scale(a_mantissa, a_scale);
    let b = rust_decimal::Decimal::from_i128_with_scale(b_mantissa, b_scale);
    match a.checked_mul(b) {
        Some(p) => Some(Dec { mantissa: p.mantissa(), scale: p.scale() }),
        None => None,
    }
}

/// Calls `rust_decimal::Decimal::checked_div` on the decimals built from the
/// given mantissas and scales by `Decimal::from_i128_with_scale`, which takes
/// every representable pair. Claimed: the mantissa and scale of the quotient
/// depend on the operands alone, `None` comes back exactly where the crate
/// reports a zero divisor or an overflow, and where the dividend is zero and
/// the divisor is not the crate answers with its constant zero. The parts of
/// a result are those of a `Decimal` and so in range.
#[verifier::external_body]
fn decimal_checked_div(a_mantissa: i128, a_scale: u32, b_mantissa: i128, b_scale: u32) -> (r:
    Option<Dec>)
    requires
        representable(a_mantissa as int, a_scale as nat),
        representable(b_mantissa as int, b_scale as nat),
    ensures
        opt_view(r) == decimal_quotient(
            a_mantissa as int,
            a_scale as nat,
            b_mantissa as int,
            b_scale as nat,
        ),
        a_mantissa == 0 && b_mantissa != 0 ==> opt_view(r) == Some((0int, 0nat)),
{
    let a = rust_decimal::Decimal::from_i128_with_scale(a_mantissa, a_scale);
    let b = rust_decimal::Decimal::from_i128_with_scale(b_mantissa, b_scale);
    match a.checked_div(b) {
        Some(q) => Some(Dec { mantissa: q.mantissa(), scale: q.scale() }),
        None => None,
    }
}

/// Calls `rust_decimal::Decimal::checked_add` on the decimals built from the
/// given mantissas and scales by `Decimal::from_i128_with_scale`, which takes
/// every representable pair. Claimed: the mantissa and scale of the sum
/// depend on the operands alone, and `None` comes back exactly where the crate
/// reports an overflow. The parts of a result are those of a `Decimal` and so
/// in range.
#[verifier::external_body]
fn decimal_checked_add(a_mantissa: i128, a_scale: u32, b_mantissa: i128, b_scale: u32) -> (r:
    Option<Dec>)
    requires
        representable(a_mantissa as int, a_scale as nat),
        representable(b_mantissa as int, b_scale as nat),
    ensures
        opt_view(r) == decimal_sum(
            a_mantissa as int,
            a_scale as nat,
            b_mantissa as int,
            b_scale as nat,
        ),
{
    let a = rust_decimal::Decimal::from_i128_with_scale(a_mantissa, a_scale);
    let b = rust_decimal::Decimal::from_i128_with_scale(b_mantissa, b_scale);
    match a.checked_add(b) {
        Some(t) => Some(Dec { mantissa: t.mantissa(), scale: t.scale() }),
        None => None,
    }
}

/// Calls `rust_decimal::Decimal::checked_sub` on the decimals built from the
/// given mantissas and scales by `Decimal::from_i128_with_scale`, which takes
/// every representable pair. Claimed: the mantissa and scale of the
/// difference depend on the operands alone, and `None` comes back exactly
/// where the crate reports an overflow. The parts of a result are those of a
/// `Decimal` and so in range.
#[verifier::external_body]
fn decimal_checked_sub(a_mantissa: i128, a_scale: u32, b_mantissa: i128, b_scale: u32) -> (r:
    Option<Dec>)
    requires
        representable(a_mantissa as int, a_scale as nat),
        representable(b_mantissa as int, b_scale as nat),
    ensures
        opt_view(r) == decimal_difference(
            a_mantissa as int,
            a_scale as nat,
            b_mantissa as int,
            b_scale as nat,
        ),
{
    let a = rust_decimal::Decimal::from_i128_with_scale(a_mantissa, a_scale);
    let b = rust_decimal::Decimal::from_i128_with_scale(b_mantissa, b_scale);
    match a.checked_sub(b) {
        Some(t) => Some(Dec { mantissa: t.mantissa(), scale: t.scale() }),
        None => None,
    }
}

} // verus!
