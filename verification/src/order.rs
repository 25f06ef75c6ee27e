//! Orders: lines are added one by one, each charged on the day in effect,
//! and the totals are read at any time.

use vstd::prelude::*;
use vstd::string::*;
use crate::catalog::PizzaType;
use crate::day::{get_daily_discount, local_weekday, DayOfWeek};
use crate::line::OrderLine;
use crate::model::{lemma_total_cost_whole_cents, lemma_totals_push, Charge, OrderModel};
use crate::money::{lemma_percent_of_exact, Money};
use crate::pricing::{
    lemma_line_cost_whole_cents, lemma_price_on_exact, line_cost, price_on, BULK_THRESHOLD,
};

verus! {

/// An order of pizzas.
pub struct PizzaOrder {
    running_total: Money,
    current_day: DayOfWeek,
    total_pizzas: i64,
    order_lines: Vec<OrderLine>,
    charges: Ghost<Seq<Charge>>,
}

impl View for PizzaOrder {
    type V = OrderModel;

    /// The day in effect and the history of charges.
    closed spec fn view(&self) -> OrderModel {
        OrderModel { current_day: self.current_day, charges: self.charges@ }
    }
}

impl PizzaOrder {
    /// The invariant of an order: it keeps the lines of its history in
    /// order, its running total is the sum of what each line cost on the day
    /// on which it was added, and its count of pizzas is the sum of the
    /// quantities.
    pub closed spec fn wf(&self) -> bool {
        &&& self.order_lines@ =~= self@.lines()
        &&& self.running_total@ == self@.running_total()
        &&& self.total_pizzas == self@.total_pizzas()
    }

    /// An empty order on the given day.
    pub fn new_order_on(day: DayOfWeek) -> (order: PizzaOrder)
        ensures
            order.wf(),
            order@ == OrderModel::empty(day),
            order@.running_total() == 0,
            order@.total_pizzas() == 0,
            order@.total() == 0,
    {
        PizzaOrder {
            running_total: Money { micros: 0 },
            current_day: day,
            total_pizzas: 0,
            order_lines: Vec::new(),
            charges: Ghost(Seq::empty()),
        }
    }

    /// An empty order on today's day of the week, by the local clock.
    pub fn new_order() -> (order: PizzaOrder)
        ensures
            order.wf(),
            order@ == OrderModel::empty(order@.current_day),
            order@.running_total() == 0,
            order@.total_pizzas() == 0,
            order@.total() == 0,
    {
        let today: DayOfWeek = local_weekday();
        PizzaOrder::new_order_on(today)
    }

    /// An empty order that asks no clock: it is on a Tuesday, a day whose
    /// multiplier is 100 percent for every pizza type.
    pub fn new_dateless_order() -> (order: PizzaOrder)
        ensures
            order.wf(),
            order@ == OrderModel::empty(DayOfWeek::Tue),
            order@.running_total() == 0,
            order@.total_pizzas() == 0,
            order@.total() == 0,
    {
        PizzaOrder::new_order_on(DayOfWeek::Tue)
    }

    /// The day in effect.
    pub fn current_day(&self) -> (day: DayOfWeek)
        ensures
            day == self@.current_day,
    {
        self.current_day
    }

    /// The sum of what the lines were charged, before any bulk discount.
    pub fn running_total(&self) -> (amount: Money)
        requires
            self.wf(),
        ensures
            amount@ == self@.running_total(),
    {
        self.running_total
    }

    /// The number of pizzas in the order.
    pub fn total_pizzas(&self) -> (count: i64)
        requires
            self.wf(),
        ensures
            count == self@.total_pizzas(),
    {
        self.total_pizzas
    }

    /// The lines of the order, in the order in which they were added.
    pub fn order_lines(&self) -> (lines: &Vec<OrderLine>)
        requires
            self.wf(),
        ensures
            lines@ == self@.lines(),
    {
        &self.order_lines
    }

    /// Puts another day in effect. Lines added from now on are charged on
    /// that day; what was charged before stays as it is.
    pub fn set_day(&mut self, new_current_day: DayOfWeek)
        requires
            old(self).wf(),
        ensures
            final(self).wf(),
            final(self)@ == old(self)@.on_day(new_current_day),
            final(self)@.running_total() == old(self)@.running_total(),
            final(self)@.total_pizzas() == old(self)@.total_pizzas(),
    {
        self.current_day = new_current_day;
    }

    /// The bulk multiplier in percent: 95 once the order holds more than
    /// five pizzas, else 100.
    pub fn bonus_discount_multiplier(&self) -> (percent: u32)
        requires
            self.wf(),
        ensures
            percent == self@.bonus(),
            percent == (if self@.total_pizzas() > 5 { 95int } else { 100int }),
    {
        if self.total_pizzas > BULK_THRESHOLD {
            return 95;
        }
        100
    }

    /// The grand total: the running total under the bulk multiplier. The
    /// division by 100 leaves no remainder.
    pub fn total(&self) -> (amount: Money)
        requires
            self.wf(),
        ensures
            amount@ == self@.total(),
            amount@ * 100 == self@.running_total() * self@.bonus(),
    {
        let percent: i128 = self.bonus_discount_multiplier() as i128;
        let hundredth: i128 = self.running_total.micros / 100;
        proof {
            lemma_total_cost_whole_cents(self@.charges);
            let sum = self@.running_total();
            assert(sum == (sum / 10_000) * 10_000);
            lemma_percent_of_exact(sum, percent as int);
            assert(percent == 95 || percent == 100);
        }
        Money { micros: hundredth * percent }
    }

    /// The cost of a line on the day in effect: the unit price of its pizza
    /// type, under the day's multiplier (a Brie, Chicken and Mushroom is
    /// exempt from Monday's), times its quantity.
    pub fn get_order_line_cost(&self, order_line: &OrderLine) -> (cost: Money)
        ensures
            cost@ == line_cost(
                self@.current_day,
                order_line.pizza_type,
                order_line.quantity as int,
            ),
    {
        let pizza_cost: Money = order_line.pizza_type.get_cost();
        let discount_multiplier: u32;
        if self.current_day == DayOfWeek::Mon {
            match order_line.pizza_type {
                PizzaType::BrieChickenAndMushroom => {
                    discount_multiplier = 100;
                },
                _ => {
                    discount_multiplier = get_daily_discount(self.current_day);
                },
            }
        } else {
            discount_multiplier = get_daily_discount(self.current_day);
        }
        let each: i128 = pizza_cost.micros * (discount_multiplier as i128) / 100;
        proof {
            lemma_price_on_exact(self@.current_day, order_line.pizza_type);
            lemma_line_cost_whole_cents(
                self@.current_day,
                order_line.pizza_type,
                order_line.quantity as int,
            );
            assert(each == price_on(self@.current_day, order_line.pizza_type));
        }
        Money { micros: each * (order_line.quantity as i128) }
    }

    /// Whether `add` can take this line: whether the totals with it are
    /// within the limits of the machine.
    pub fn can_add(&self, pizza_type: PizzaType, quantity: i64) -> (fits: bool)
        requires
            self.wf(),
        ensures
            fits == self@.admits(pizza_type, quantity),
    {
        let cost: Money = self.get_order_line_cost(&OrderLine { pizza_type, quantity });
        let count: Option<i64> = self.total_pizzas.checked_add(quantity);
        let sum: Option<i128> = self.running_total.micros.checked_add(cost.micros);
        count.is_some() && sum.is_some()
    }

    /// Adds a line of `quantity` pizzas of one type, charged on the day in
    /// effect. The quantity is taken as given: a line of no pizzas costs
    /// nothing, and a negative quantity takes its cost and its pizzas off
    /// the totals.
    pub fn add(&mut self, pizza_type: PizzaType, quantity: i64)
        requires
            old(self).wf(),
            old(self)@.admits(pizza_type, quantity),
        ensures
            final(self).wf(),
            final(self)@ == old(self)@.added(pizza_type, quantity),
            final(self)@.running_total() == old(self)@.running_total() + line_cost(
                old(self)@.current_day,
                pizza_type,
                quantity as int,
            ),
            final(self)@.total_pizzas() == old(self)@.total_pizzas() + quantity,
    {
        let new_order_line: OrderLine = OrderLine { pizza_type, quantity };
        let cost: Money = self.get_order_line_cost(&new_order_line);
        proof {
            lemma_totals_push(
                self@.charges,
                Charge { day: self.current_day, line: new_order_line },
            );
        }
        self.order_lines.push(new_order_line);
        self.running_total = Money { micros: self.running_total.micros + cost.micros };
        self.total_pizzas = self.total_pizzas + quantity;
        self.charges = Ghost(
            self.charges@.push(Charge { day: self.current_day, line: new_order_line }),
        );
    }

    /// The receipt, one text for each line in the order in which the lines
    /// were added. Each line is priced on the day in effect now, which is
    /// not the day on which it was charged if the day was changed since.
    pub fn get_receipt(&self) -> (receipt: Vec<String>)
        requires
            self.wf(),
        ensures
            receipt@.len() == self@.receipt().len(),
            forall|i: int| 0 <= i < receipt@.len() ==> #[trigger] receipt@[i]@ == self@.receipt()[i],
    {
        let mut receipt: Vec<String> = Vec::new();
        let mut i: usize = 0;
        while i < self.order_lines.len()
            invariant
                self.wf(),
                0 <= i <= self.order_lines@.len(),
                receipt@.len() == i,
                forall|k: int| 0 <= k < i ==> #[trigger] receipt@[k]@ == self@.receipt()[k],
            decreases self.order_lines@.len() - i,
        {
            let order_line: &OrderLine = &self.order_lines[i];
            let cost: Money = self.get_order_line_cost(order_line);
            let mut text: String = order_line.to_text();
            proof {
                reveal_strlit(": $");
            }
            text.append(": $");
            let amount: String = cost.to_text();
            text.append(amount.as_str());
            assert(text@ =~= self@.receipt()[i as int]);
            receipt.push(text);
            i = i + 1;
        }
        receipt
    }
}

} // verus!
