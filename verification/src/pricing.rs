//! The pricing rules, stated over mathematical integers.

use vstd::prelude::*;
use crate::catalog::{unit_price, PizzaType};
use crate::day::{daily_percent, DayOfWeek};
use crate::money::percent_of;

verus! {

/// The multiplier, in percent, that applies to a pizza type on a day: the
/// day's own, except that a Brie, Chicken and Mushroom takes no part in the
/// Monday discount and stays at 100.
pub open spec fn line_percent(day: DayOfWeek, pizza_type: PizzaType) -> int {
    if day == DayOfWeek::Mon && pizza_type == PizzaType::BrieChickenAndMushroom {
        100
    } else {
        daily_percent(day)
    }
}

/// What one pizza of a type costs on a day: its unit price under the
/// multiplier that applies.
pub open spec fn price_on(day: DayOfWeek, pizza_type: PizzaType) -> int {
    percent_of(unit_price(pizza_type), line_percent(day, pizza_type))
}

/// The cost of a line of `quantity` pizzas of one type, charged on `day`.
/// A negative quantity gives a negative cost.
pub open spec fn line_cost(day: DayOfWeek, pizza_type: PizzaType, quantity: int) -> int {
    price_on(day, pizza_type) * quantity
}

/// The number of pizzas up to which an order carries no bulk discount.
pub const BULK_THRESHOLD: i64 = 5;

/// The multiplier, in percent, that the size of an order puts on its grand
/// total: 95 for more than five pizzas, else 100.
pub open spec fn bonus_percent(total_pizzas: int) -> int {
    if total_pizzas > BULK_THRESHOLD {
        95
    } else {
        100
    }
}

/// Every price on every day is a whole number of hundredths of the currency
/// unit, and is the unit price times the percent with nothing rounded away.
pub proof fn lemma_price_on_exact(day: DayOfWeek, pizza_type: PizzaType)
    ensures
        price_on(day, pizza_type) * 100 == unit_price(pizza_type) * line_percent(day, pizza_type),
        price_on(day, pizza_type) % 10_000 == 0,
        0 < price_on(day, pizza_type) <= 15_750_000,
{
}

/// The cost of a line is the price of one pizza on that day, taken as often
/// as the quantity says: it is linear in the quantity.
pub proof fn lemma_line_cost_linear(day: DayOfWeek, pizza_type: PizzaType, quantity: int)
    ensures
        line_cost(day, pizza_type, quantity) == quantity * line_cost(day, pizza_type, 1),
{
    assert(price_on(day, pizza_type) * quantity == quantity * (price_on(day, pizza_type) * 1))
        by (nonlinear_arith);
}

/// The cost of a line of two quantities together is the sum of the costs of
/// a line of each.
pub proof fn lemma_line_cost_additive(day: DayOfWeek, pizza_type: PizzaType, a: int, b: int)
    ensures
        line_cost(day, pizza_type, a + b) == line_cost(day, pizza_type, a) + line_cost(
            day,
            pizza_type,
            b,
        ),
{
    let price = price_on(day, pizza_type);
    assert(price * (a + b) == price * a + price * b) by (nonlinear_arith);
}

/// The cost of any line is a whole number of hundredths of the currency
/// unit, and lies within 15.75 currency units for each pizza.
pub proof fn lemma_line_cost_whole_cents(day: DayOfWeek, pizza_type: PizzaType, quantity: int)
    ensures
        line_cost(day, pizza_type, quantity) % 10_000 == 0,
        quantity >= 0 ==> 0 <= line_cost(day, pizza_type, quantity) <= 15_750_000 * quantity,
        quantity <= 0 ==> 15_750_000 * quantity <= line_cost(day, pizza_type, quantity) <= 0,
{
    lemma_price_on_exact(day, pizza_type);
    let price = price_on(day, pizza_type);
    let lots = price / 10_000;
    assert(price * quantity == (lots * quantity) * 10_000) by (nonlinear_arith)
        requires
            price == lots * 10_000,
    ;
    vstd::arithmetic::div_mod::lemma_mod_multiples_basic(lots * quantity, 10_000);
    assert(quantity >= 0 ==> 0 <= price * quantity <= 15_750_000 * quantity) by (nonlinear_arith)
        requires
            0 < price <= 15_750_000,
    ;
    assert(quantity <= 0 ==> 15_750_000 * quantity <= price * quantity <= 0) by (nonlinear_arith)
        requires
            0 < price <= 15_750_000,
    ;
}

} // verus!
