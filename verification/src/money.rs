//! Amounts of money as whole millionths of the currency unit.

use vstd::prelude::*;

verus! {

/// The number of millionths in one currency unit.
pub const MICROS_PER_UNIT: i128 = 1_000_000;

/// An amount of money, held exactly as a count of millionths of the currency
/// unit. The amount may be negative.
#[derive(Clone, Copy, Debug, PartialEq, Eq, Structural)]
pub struct Money {
    pub micros: i128,
}

impl View for Money {
    type V = int;

    /// The amount in millionths of the currency unit.
    open spec fn view(&self) -> int {
        self.micros as int
    }
}

/// The given share of an amount, the share counted in percent. The quotient
/// is the Euclidean one; the amounts that an order handles divide exactly.
pub open spec fn percent_of(amount: int, percent: int) -> int {
    amount * percent / 100
}

/// Of an amount that is a whole number of ten-thousandths of the currency
/// unit, a share in whole percents is exact: a hundred times the share is
/// the amount times the percent.
pub proof fn lemma_percent_of_exact(amount: int, percent: int)
    requires
        amount % 100 == 0,
    ensures
        percent_of(amount, percent) * 100 == amount * percent,
        percent_of(amount, percent) == (amount / 100) * percent,
{
    let hundredth = amount / 100;
    assert(amount * percent == 100 * (hundredth * percent)) by (nonlinear_arith)
        requires
            amount == hundredth * 100,
    ;
    vstd::arithmetic::div_mod::lemma_div_multiples_vanish(hundredth * percent, 100);
}

impl Money {
    /// The amount of `units` whole currency units.
    pub fn from_units(units: i64) -> (amount: Money)
        ensures
            amount@ == units * MICROS_PER_UNIT,
    {
        let wide: i128 = units as i128;
        Money { micros: wide * MICROS_PER_UNIT }
    }
}

} // verus!
