//! The mathematical model of an order: the lines charged so far, each with
//! the day on which it was charged, and the day that is in effect now.

use vstd::prelude::*;
use crate::catalog::PizzaType;
use crate::day::DayOfWeek;
use crate::line::{line_text, OrderLine};
use crate::money::percent_of;
use crate::pricing::{bonus_percent, line_cost};
use crate::text::money_text;

verus! {

/// A line together with the day that was in effect when it was added.
pub struct Charge {
    pub day: DayOfWeek,
    pub line: OrderLine,
}

impl Charge {
    /// What the line was charged: its cost on the day of the charge.
    pub open spec fn cost(self) -> int {
        line_cost(self.day, self.line.pizza_type, self.line.quantity as int)
    }
}

/// The sum of what the charges cost.
pub open spec fn total_cost(charges: Seq<Charge>) -> int
    decreases charges.len(),
{
    if charges.len() == 0 {
        0
    } else {
        total_cost(charges.drop_last()) + charges.last().cost()
    }
}

/// The sum of the quantities of the charges.
pub open spec fn total_quantity(charges: Seq<Charge>) -> int
    decreases charges.len(),
{
    if charges.len() == 0 {
        0
    } else {
        total_quantity(charges.drop_last()) + charges.last().line.quantity
    }
}

/// The text of one line of a receipt drawn up on `day`: the text of the
/// order line, a colon, and after a dollar sign the cost of the line on that
/// day.
pub open spec fn receipt_line(day: DayOfWeek, line: OrderLine) -> Seq<char> {
    line_text(line) + seq![':', ' ', '$'] + money_text(
        line_cost(day, line.pizza_type, line.quantity as int),
    )
}

/// What an order is: the day in effect and the history of its charges, in
/// the order in which they were made.
pub struct OrderModel {
    pub current_day: DayOfWeek,
    pub charges: Seq<Charge>,
}

impl OrderModel {
    /// The order without any line, on the given day.
    pub open spec fn empty(day: DayOfWeek) -> OrderModel {
        OrderModel { current_day: day, charges: Seq::empty() }
    }

    /// The lines of the order, in the order in which they were added.
    pub open spec fn lines(self) -> Seq<OrderLine> {
        Seq::new(self.charges.len(), |i: int| self.charges[i].line)
    }

    /// The sum of the costs of the lines, each on the day on which it was
    /// added, before any bulk discount.
    pub open spec fn running_total(self) -> int {
        total_cost(self.charges)
    }

    /// The number of pizzas in the order: the sum of the quantities.
    pub open spec fn total_pizzas(self) -> int {
        total_quantity(self.charges)
    }

    /// The multiplier, in percent, that the size of the order puts on its
    /// grand total.
    pub open spec fn bonus(self) -> int {
        bonus_percent(self.total_pizzas())
    }

    /// The grand total: the running total under the bulk multiplier.
    pub open spec fn total(self) -> int {
        percent_of(self.running_total(), self.bonus())
    }

    /// The order after one more line, charged on the day in effect.
    pub open spec fn added(self, pizza_type: PizzaType, quantity: i64) -> OrderModel {
        OrderModel {
            current_day: self.current_day,
            charges: self.charges.push(
                Charge { day: self.current_day, line: OrderLine { pizza_type, quantity } },
            ),
        }
    }

    /// The order with another day in effect; what was charged stays.
    pub open spec fn on_day(self, day: DayOfWeek) -> OrderModel {
        OrderModel { current_day: day, charges: self.charges }
    }

    /// The receipt: one text per line, each line priced anew on the day in
    /// effect now, whatever it was charged when it was added.
    pub open spec fn receipt(self) -> Seq<Seq<char>> {
        Seq::new(self.charges.len(), |i: int| receipt_line(self.current_day, self.charges[i].line))
    }

    /// Whether the order can take one more line within the limits of the
    /// machine: the count of pizzas stays within 64 bits and the running
    /// total, in millionths, within 128.
    pub open spec fn admits(self, pizza_type: PizzaType, quantity: i64) -> bool {
        &&& i64::MIN <= self.total_pizzas() + quantity <= i64::MAX
        &&& i128::MIN <= self.running_total() + line_cost(
            self.current_day,
            pizza_type,
            quantity as int,
        ) <= i128::MAX
    }
}

/// One more charge adds its cost and its quantity to the sums.
pub proof fn lemma_totals_push(charges: Seq<Charge>, charge: Charge)
    ensures
        total_cost(charges.push(charge)) == total_cost(charges) + charge.cost(),
        total_quantity(charges.push(charge)) == total_quantity(charges) + charge.line.quantity,
{
    assert(charges.push(charge).drop_last() =~= charges);
}

/// The sum of any charges is a whole number of hundredths of the currency
/// unit, so that taking 95 or 100 percent of it rounds nothing away.
pub proof fn lemma_total_cost_whole_cents(charges: Seq<Charge>)
    ensures
        total_cost(charges) % 10_000 == 0,
    decreases charges.len(),
{
    if charges.len() > 0 {
        lemma_total_cost_whole_cents(charges.drop_last());
        let last = charges.last();
        crate::pricing::lemma_line_cost_whole_cents(
            last.day,
            last.line.pizza_type,
            last.line.quantity as int,
        );
    }
}

} // verus!
