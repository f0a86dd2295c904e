//! Monetary amounts.
//!
//! An amount is a base-10 fixed point number: a signed integer mantissa of at
//! most 96 bits and a scale (number of fractional digits) of at most 28.  The
//! arithmetic itself is done by `rust_decimal`; this module carries the plain
//! parts across and states what the results are.
use vstd::prelude::*;
use rust_decimal::Decimal;

verus! {

/// Largest magnitude of a mantissa (2^96 - 1).
pub const MAX_MANTISSA: i128 = 79228162514264337593543950335i128;

/// Largest number of fractional digits.
pub const MAX_SCALE: u32 = 28u32;

/// `10^n`.
pub open spec fn pow10(n: nat) -> int
    decreases n,
{
    if n == 0 {
        1
    } else {
        10 * pow10((n - 1) as nat)
    }
}

pub open spec fn abs(x: int) -> int {
    if x < 0 {
        -x
    } else {
        x
    }
}

pub open spec fn max_scale(a: u32, b: u32) -> u32 {
    if a >= b {
        a
    } else {
        b
    }
}

/// A decimal amount `mantissa / 10^scale`.
#[derive(Clone, Copy, Debug, PartialEq, Eq, Structural)]
pub struct Money {
    pub mantissa: i128,
    pub scale: u32,
}

/// What `rust_decimal` gives for the product of two amounts (parts of each
/// operand, then `None` on overflow or the parts of the result).
pub uninterp spec fn decimal_product(a_mantissa: int, a_scale: int, b_mantissa: int, b_scale: int) -> Option<(int, int)>;

/// What `rust_decimal` gives for the sum of two amounts.
pub uninterp spec fn decimal_sum(a_mantissa: int, a_scale: int, b_mantissa: int, b_scale: int) -> Option<(int, int)>;

/// What `rust_decimal` gives for the difference of two amounts.
pub uninterp spec fn decimal_difference(a_mantissa: int, a_scale: int, b_mantissa: int, b_scale: int) -> Option<(int, int)>;

/// The parts of an optional amount, as integers.
pub open spec fn opt_parts(r: Option<Money>) -> Option<(int, int)> {
    match r {
        Some(m) => Some((m.mantissa as int, m.scale as int)),
        None => None,
    }
}

/// An optional amount from optional integer parts.
pub open spec fn from_opt_parts(p: Option<(int, int)>) -> Option<Money> {
    match p {
        Some(q) => Some(Money { mantissa: q.0 as i128, scale: q.1 as u32 }),
        None => None,
    }
}

impl Money {
    /// The product computed by `rust_decimal`, `None` on overflow.
    pub open spec fn spec_mul(self, other: Money) -> Option<Money> {
        from_opt_parts(decimal_product(self.mantissa as int, self.scale as int, other.mantissa as int, other.scale as int))
    }

    /// The sum computed by `rust_decimal`, `None` on overflow.
    pub open spec fn spec_add(self, other: Money) -> Option<Money> {
        from_opt_parts(decimal_sum(self.mantissa as int, self.scale as int, other.mantissa as int, other.scale as int))
    }

    /// The difference computed by `rust_decimal`, `None` on overflow.
    pub open spec fn spec_sub(self, other: Money) -> Option<Money> {
        from_opt_parts(decimal_difference(self.mantissa as int, self.scale as int, other.mantissa as int, other.scale as int))
    }

    /// The amount can be held by a `rust_decimal::Decimal`.
    pub open spec fn wf(self) -> bool {
        &&& self.scale <= MAX_SCALE
        &&& -MAX_MANTISSA <= self.mantissa <= MAX_MANTISSA
    }

    /// The mantissa of this amount written with `s` fractional digits
    /// (`s` at least `self.scale`).
    pub open spec fn scaled(self, s: u32) -> int {
        self.mantissa * pow10((s - self.scale) as nat)
    }

    /// `self >= other` as numbers.
    pub open spec fn spec_ge(self, other: Money) -> bool {
        let s = max_scale(self.scale, other.scale);
        self.scaled(s) >= other.scaled(s)
    }

    /// The amount is the number `mantissa / 10^scale`.
    pub open spec fn denotes(self, mantissa: int, scale: u32) -> bool {
        let s = max_scale(self.scale, scale);
        self.scaled(s) == mantissa * pow10((s - scale) as nat)
    }

    /// The amount zero.
    pub fn zero() -> (r: Money)
        ensures
            r == (Money { mantissa: 0, scale: 0 }),
            r.wf(),
    {
        Money { mantissa: 0, scale: 0 }
    }

    /// A whole number of units.
    pub fn from_u64(n: u64) -> (r: Money)
        ensures
            r == (Money { mantissa: n as i128, scale: 0 }),
            r.wf(),
    {
        Money { mantissa: n as i128, scale: 0 }
    }

    /// Whether the amount is zero.
    pub fn is_zero(&self) -> (r: bool)
        ensures
            r == (self.mantissa == 0),
    {
        self.mantissa == 0
    }

    /// `self >= other`, compared as numbers.
    pub fn ge(&self, other: &Money) -> (r: bool)
        requires
            self.wf(),
            other.wf(),
        ensures
            r == self.spec_ge(*other),
    {
        decimal_ge(*self, *other)
    }

    /// The product of two amounts; `None` where `rust_decimal` overflows.
    pub fn checked_mul(&self, other: &Money) -> (r: Option<Money>)
        requires
            self.wf(),
            other.wf(),
        ensures
            opt_parts(r) == decimal_product(self.mantissa as int, self.scale as int, other.mantissa as int, other.scale as int),
            r == self.spec_mul(*other),
            r matches Some(m) ==> m.wf(),
            self.mantissa * other.mantissa == 0 ==> r == Some(Money { mantissa: 0, scale: 0 }),
            self.mantissa * other.mantissa != 0 && self.scale + other.scale <= MAX_SCALE
                && abs(self.mantissa * other.mantissa) <= MAX_MANTISSA ==> r == Some(
                Money {
                    mantissa: (self.mantissa * other.mantissa) as i128,
                    scale: (self.scale + other.scale) as u32,
                },
            ),
    {
        decimal_checked_mul(*self, *other)
    }

    /// The sum of two amounts; `None` where `rust_decimal` overflows.
    pub fn checked_add(&self, other: &Money) -> (r: Option<Money>)
        requires
            self.wf(),
            other.wf(),
        ensures
            opt_parts(r) == decimal_sum(self.mantissa as int, self.scale as int, other.mantissa as int, other.scale as int),
            r == self.spec_add(*other),
            r matches Some(m) ==> m.wf(),
            self.mantissa == 0 ==> r == Some(*other),
            self.mantissa != 0 && other.mantissa == 0 ==> r == Some(*self),
            ({
                let s = max_scale(self.scale, other.scale);
                let v = self.scaled(s) + other.scaled(s);
                self.mantissa != 0 && other.mantissa != 0 && abs(v) <= MAX_MANTISSA ==> r == Some(
                    Money { mantissa: v as i128, scale: s },
                )
            }),
    {
        decimal_checked_add(*self, *other)
    }

    /// The difference of two amounts; `None` where `rust_decimal` overflows.
    pub fn checked_sub(&self, other: &Money) -> (r: Option<Money>)
        requires
            self.wf(),
            other.wf(),
        ensures
            opt_parts(r) == decimal_difference(self.mantissa as int, self.scale as int, other.mantissa as int, other.scale as int),
            r == self.spec_sub(*other),
            r matches Some(m) ==> m.wf(),
            self.mantissa == 0 ==> r == Some(Money { mantissa: (-other.mantissa) as i128, scale: other.scale }),
            self.mantissa != 0 && other.mantissa == 0 ==> r == Some(*self),
            ({
                let s = max_scale(self.scale, other.scale);
                let v = self.scaled(s) - other.scaled(s);
                self.mantissa != 0 && other.mantissa != 0 && abs(v) <= MAX_MANTISSA ==> r == Some(
                    Money { mantissa: v as i128, scale: s },
                )
            }),
    {
        decimal_checked_sub(*self, *other)
    }
}

/// `Decimal >= Decimal` from `rust_decimal` (its `Ord`, which compares the
/// numbers exactly, whatever their scales).
#[verifier::external_body]
fn decimal_ge(a: Money, b: Money) -> (r: bool)
    requires
        a.wf(),
        b.wf(),
    ensures
        r == a.spec_ge(b),
{
    Decimal::from_i128_with_scale(a.mantissa, a.scale) >= Decimal::from_i128_with_scale(b.mantissa, b.scale)
}

/// `Decimal::checked_mul` from `rust_decimal`.  Claimed: the result is the
/// named product; zero when either factor is zero (at scale 0); and the exact
/// product, at the sum of the scales, where that fits in 96 bits and 28 digits.
/// Where it does not fit the crate rounds or overflows; that is left to the name.
#[verifier::external_body]
fn decimal_checked_mul(a: Money, b: Money) -> (r: Option<Money>)
    requires
        a.wf(),
        b.wf(),
    ensures
        opt_parts(r) == decimal_product(a.mantissa as int, a.scale as int, b.mantissa as int, b.scale as int),
        r matches Some(m) ==> m.wf(),
        a.mantissa * b.mantissa == 0 ==> r == Some(Money { mantissa: 0, scale: 0 }),
        a.mantissa * b.mantissa != 0 && a.scale + b.scale <= MAX_SCALE && abs(a.mantissa * b.mantissa)
            <= MAX_MANTISSA ==> r == Some(
            Money { mantissa: (a.mantissa * b.mantissa) as i128, scale: (a.scale + b.scale) as u32 },
        ),
{
    Decimal::from_i128_with_scale(a.mantissa, a.scale)
        .checked_mul(Decimal::from_i128_with_scale(b.mantissa, b.scale))
        .map(|d| Money { mantissa: d.mantissa(), scale: d.scale() })
}

/// `Decimal::checked_add` from `rust_decimal`.  Claimed: the result is the
/// named sum; adding to zero gives the other operand unchanged; and otherwise
/// the exact sum at the larger scale where it fits in 96 bits.
#[verifier::external_body]
fn decimal_checked_add(a: Money, b: Money) -> (r: Option<Money>)
    requires
        a.wf(),
        b.wf(),
    ensures
        opt_parts(r) == decimal_sum(a.mantissa as int, a.scale as int, b.mantissa as int, b.scale as int),
        r matches Some(m) ==> m.wf(),
        a.mantissa == 0 ==> r == Some(b),
        a.mantissa != 0 && b.mantissa == 0 ==> r == Some(a),
        ({
            let s = max_scale(a.scale, b.scale);
            let v = a.scaled(s) + b.scaled(s);
            a.mantissa != 0 && b.mantissa != 0 && abs(v) <= MAX_MANTISSA ==> r == Some(
                Money { mantissa: v as i128, scale: s },
            )
        }),
{
    Decimal::from_i128_with_scale(a.mantissa, a.scale)
        .checked_add(Decimal::from_i128_with_scale(b.mantissa, b.scale))
        .map(|d| Money { mantissa: d.mantissa(), scale: d.scale() })
}

/// `Decimal::checked_sub` from `rust_decimal`.  Claimed: the result is the
/// named difference; zero minus `b` is `b` negated at its scale; `a` minus zero
/// is `a`; and otherwise the exact difference at the larger scale where it
/// fits in 96 bits.
#[verifier::external_body]
fn decimal_checked_sub(a: Money, b: Money) -> (r: Option<Money>)
    requires
        a.wf(),
        b.wf(),
    ensures
        opt_parts(r) == decimal_difference(a.mantissa as int, a.scale as int, b.mantissa as int, b.scale as int),
        r matches Some(m) ==> m.wf(),
        a.mantissa == 0 ==> r == Some(Money { mantissa: (-b.mantissa) as i128, scale: b.scale }),
        a.mantissa != 0 && b.mantissa == 0 ==> r == Some(a),
        ({
            let s = max_scale(a.scale, b.scale);
            let v = a.scaled(s) - b.scaled(s);
            a.mantissa != 0 && b.mantissa != 0 && abs(v) <= MAX_MANTISSA ==> r == Some(
                Money { mantissa: v as i128, scale: s },
            )
        }),
{
    Decimal::from_i128_with_scale(a.mantissa, a.scale)
        .checked_sub(Decimal::from_i128_with_scale(b.mantissa, b.scale))
        .map(|d| Money { mantissa: d.mantissa(), scale: d.scale() })
}

} // verus!
