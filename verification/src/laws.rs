//! Laws of orders, proved of the model that the contracts speak of.

use vstd::prelude::*;
use crate::catalog::{unit_price, PizzaType};
use crate::day::DayOfWeek;
use crate::model::{lemma_total_cost_whole_cents, lemma_totals_push, Charge, OrderModel};
use crate::line::OrderLine;
use crate::money::lemma_percent_of_exact;
use crate::pricing::{lemma_line_cost_additive, line_cost};

verus! {

/// An order without lines has a running total, a count of pizzas and a
/// grand total of zero, whatever its day.
pub proof fn lemma_empty_order_totals(day: DayOfWeek)
    ensures
        OrderModel::empty(day).running_total() == 0,
        OrderModel::empty(day).total_pizzas() == 0,
        OrderModel::empty(day).total() == 0,
{
}

/// On the day of a dateless order every pizza is charged its unit price:
/// a line costs the unit price times the quantity.
pub proof fn lemma_dateless_line_cost(pizza_type: PizzaType, quantity: int)
    ensures
        line_cost(DayOfWeek::Tue, pizza_type, quantity) == unit_price(pizza_type) * quantity,
{
}

/// A line adds its cost on the day in effect to the running total and its
/// quantity to the count of pizzas, and leaves the day as it is.
pub proof fn lemma_added_totals(order: OrderModel, pizza_type: PizzaType, quantity: i64)
    ensures
        order.added(pizza_type, quantity).running_total() == order.running_total() + line_cost(
            order.current_day,
            pizza_type,
            quantity as int,
        ),
        order.added(pizza_type, quantity).total_pizzas() == order.total_pizzas() + quantity,
        order.added(pizza_type, quantity).current_day == order.current_day,
{
    lemma_totals_push(
        order.charges,
        Charge { day: order.current_day, line: OrderLine { pizza_type, quantity } },
    );
}

/// A line of no pizzas changes no total.
pub proof fn lemma_added_nothing(order: OrderModel, pizza_type: PizzaType)
    ensures
        order.added(pizza_type, 0).running_total() == order.running_total(),
        order.added(pizza_type, 0).total_pizzas() == order.total_pizzas(),
        order.added(pizza_type, 0).total() == order.total(),
{
    lemma_added_totals(order, pizza_type, 0);
}

/// Additivity: a quantity of one pizza type added in two lines gives the
/// same running total, the same count of pizzas and the same grand total as
/// the whole quantity added in one line.
pub proof fn lemma_add_split(order: OrderModel, pizza_type: PizzaType, first: i64, second: i64)
    requires
        i64::MIN <= first + second <= i64::MAX,
    ensures
        order.added(pizza_type, first).added(pizza_type, second).running_total() == order.added(
            pizza_type,
            (first + second) as i64,
        ).running_total(),
        order.added(pizza_type, first).added(pizza_type, second).total_pizzas() == order.added(
            pizza_type,
            (first + second) as i64,
        ).total_pizzas(),
        order.added(pizza_type, first).added(pizza_type, second).total() == order.added(
            pizza_type,
            (first + second) as i64,
        ).total(),
{
    lemma_added_totals(order, pizza_type, first);
    lemma_added_totals(order.added(pizza_type, first), pizza_type, second);
    lemma_added_totals(order, pizza_type, (first + second) as i64);
    lemma_line_cost_additive(order.current_day, pizza_type, first as int, second as int);
}

/// A change of day is prospective only: the running total, the count of
/// pizzas, the lines and the grand total stay as they were, and the next
/// line is charged on the new day on top of the old running total.
pub proof fn lemma_on_day_prospective(
    order: OrderModel,
    day: DayOfWeek,
    pizza_type: PizzaType,
    quantity: i64,
)
    ensures
        order.on_day(day).running_total() == order.running_total(),
        order.on_day(day).total_pizzas() == order.total_pizzas(),
        order.on_day(day).total() == order.total(),
        order.on_day(day).lines() == order.lines(),
        order.on_day(day).added(pizza_type, quantity).running_total() == order.running_total()
            + line_cost(day, pizza_type, quantity as int),
{
    lemma_added_totals(order.on_day(day), pizza_type, quantity);
}

/// The bulk discount sets in above five pizzas: up to five the grand total
/// is the running total, from six on it is 95 percent of it, and in both
/// cases nothing is rounded away.
pub proof fn lemma_total_by_size(order: OrderModel)
    ensures
        order.total_pizzas() <= 5 ==> order.total() == order.running_total(),
        order.total_pizzas() >= 6 ==> order.total() * 100 == order.running_total() * 95,
        order.total() * 100 == order.running_total() * order.bonus(),
{
    lemma_total_cost_whole_cents(order.charges);
    let sum = order.running_total();
    assert(sum == (sum / 10_000) * 10_000);
    lemma_percent_of_exact(sum, order.bonus());
}

} // verus!
