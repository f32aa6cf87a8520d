//! Fixed-point monetary amounts.
//!
//! An [`Amount`] stores an exact count of ten-thousandths (four fractional
//! decimal digits), so monetary arithmetic is exact integer arithmetic:
//! adding `0.0001` ten thousand times yields exactly `1.0000`. Addition and
//! subtraction are checked — they report failure instead of wrapping when a
//! result would fall outside the representable range.

use vstd::prelude::*;

verus! {

/// How many units make one whole: an `Amount` counts ten-thousandths.
pub const UNITS_PER_WHOLE: i64 = 10_000;

/// A monetary amount, stored as an exact number of ten-thousandths.
///
/// The view of an `Amount` is its unit count as a mathematical integer.
#[derive(Clone, Copy, Debug, PartialEq, Eq, Structural)]
pub struct Amount {
    /// The number of ten-thousandths this amount stands for.
    pub units: i64,
}

impl View for Amount {
    type V = int;

    open spec fn view(&self) -> int {
        self.units as int
    }
}

impl Amount {
    /// The amount worth zero.
    pub fn zero() -> (r: Amount)
        ensures
            r@ == 0,
    {
        Amount { units: 0 }
    }

    /// Builds the amount worth `units` ten-thousandths.
    pub fn from_units(units: i64) -> (r: Amount)
        ensures
            r@ == units as int,
    {
        Amount { units }
    }

    /// The largest representable amount.
    pub fn max_value() -> (r: Amount)
        ensures
            r@ == i64::MAX as int,
    {
        Amount { units: i64::MAX }
    }

    /// Whether this amount is strictly below zero.
    pub fn is_negative(&self) -> (r: bool)
        ensures
            r == (self@ < 0),
    {
        self.units < 0
    }

    /// Checked addition: the exact sum, or `None` when it would not be
    /// representable.
    pub fn checked_add(&self, other: Amount) -> (r: Option<Amount>)
        ensures
            r matches Some(s) ==> s@ == self@ + other@,
            r is Some <==> i64::MIN <= self@ + other@ <= i64::MAX,
    {
        match self.units.checked_add(other.units) {
            Some(units) => Some(Amount { units }),
            None => None,
        }
    }

    /// Checked subtraction: the exact difference, or `None` when it would
    /// not be representable.
    pub fn checked_sub(&self, other: Amount) -> (r: Option<Amount>)
        ensures
            r matches Some(s) ==> s@ == self@ - other@,
            r is Some <==> i64::MIN <= self@ - other@ <= i64::MAX,
    {
        match self.units.checked_sub(other.units) {
            Some(units) => Some(Amount { units }),
            None => None,
        }
    }

    /// Whether this amount is strictly smaller than `other`.
    pub fn lt(&self, other: Amount) -> (r: bool)
        ensures
            r == (self@ < other@),
    {
        self.units < other.units
    }
}

} // verus!
