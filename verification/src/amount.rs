//! Money: whole base units, `10^18` to the credit.

use vstd::prelude::*;

verus! {

/// Base units in one credit.
pub const CREDIT: i128 = 1_000_000_000_000_000_000;

/// An amount of money, held as a signed count of base units.
#[derive(Debug, Clone, Copy, PartialEq, Eq, Structural)]
pub struct Amount {
    /// Base units.
    pub units: i128,
}

impl View for Amount {
    type V = int;

    open spec fn view(&self) -> int {
        self.units as int
    }
}

impl Amount {
    /// No money.
    pub fn zero() -> (r: Amount)
        ensures
            r@ == 0,
            r.units == 0,
    {
        Amount { units: 0 }
    }

    /// The amount of so many base units.
    pub fn from_base(units: i128) -> (r: Amount)
        ensures
            r@ == units,
            r.units == units,
    {
        Amount { units }
    }

    /// The amount of so many whole credits.
    pub fn from_credits(credits: u64) -> (r: Amount)
        ensures
            r@ == credits * CREDIT,
            r.units == credits * 1_000_000_000_000_000_000,
    {
        Amount { units: credits as i128 * CREDIT }
    }

    /// The amount in base units.
    pub fn base(&self) -> (r: i128)
        ensures
            r == self@,
            r == self.units,
    {
        self.units
    }

    /// The amount in base units, with a debt read as nothing.
    pub open spec fn clamped(self) -> u128 {
        if self@ < 0 {
            0
        } else {
            self.units as u128
        }
    }

    /// Reads the amount as a non-negative count of base units.
    ///
    /// Cumulative totals are never negative; a malformed one is read as zero.
    pub(crate) fn base_u128(&self) -> (r: u128)
        ensures
            r == self.clamped(),
    {
        if self.units < 0 {
            0
        } else {
            self.units as u128
        }
    }
}

/// An amount is worth its base units; read as a total, a debt counts as nothing.
pub proof fn law_amount_is_its_units(a: Amount)
    ensures
        a@ == a.units,
        a.units >= 0 ==> a.clamped() == a.units,
        a.units <= 0 ==> a.clamped() == 0,
{
}

} // verus!
