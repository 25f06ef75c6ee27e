//! The lines of an order.

use vstd::prelude::*;
use vstd::string::*;
use crate::catalog::{label, PizzaType};
use crate::text::{int_text, push_int};

verus! {

/// One addition to an order: so many pizzas of one type. The quantity is
/// kept as it was given, and may be zero or negative.
#[derive(Clone, Copy, Debug, PartialEq, Eq, Structural)]
pub struct OrderLine {
    pub pizza_type: PizzaType,
    pub quantity: i64,
}

/// The text of a line: its quantity, a space, and the name of its pizza
/// type.
pub open spec fn line_text(line: OrderLine) -> Seq<char> {
    int_text(line.quantity as int) + seq![' '] + label(line.pizza_type)
}

impl OrderLine {
    /// This line as text, such as `"2 Pepperoni"`.
    pub fn to_text(&self) -> (text: String)
        ensures
            text@ == line_text(*self),
    {
        let mut text: String = String::new();
        push_int(&mut text, self.quantity as i128);
        proof {
            reveal_strlit(" ");
        }
        text.append(" ");
        text.append(self.pizza_type.display_label());
        assert(text@ =~= line_text(*self));
        text
    }
}

} // verus!
