//! The catalog: the pizza types on sale, their unit prices and their names.

use vstd::prelude::*;
use crate::money::Money;

verus! {

/// A pizza on the menu.
#[derive(Clone, Copy, Debug, PartialEq, Eq, Structural)]
pub enum PizzaType {
    Pepperoni,
    BrieChickenAndMushroom,
    MightyVeg,
}

/// The price of one pizza of the given type, in millionths of the currency
/// unit: 10.00 for a Pepperoni, 15.00 for a Brie, Chicken and Mushroom and
/// 12.00 for a Mighty Veg.
pub open spec fn unit_price(pizza_type: PizzaType) -> int {
    match pizza_type {
        PizzaType::Pepperoni => 10_000_000,
        PizzaType::BrieChickenAndMushroom => 15_000_000,
        PizzaType::MightyVeg => 12_000_000,
    }
}

/// The name under which a pizza type appears on a receipt.
pub open spec fn label(pizza_type: PizzaType) -> Seq<char> {
    match pizza_type {
        PizzaType::Pepperoni => "Pepperoni"@,
        PizzaType::BrieChickenAndMushroom => "Brie, Chicken and Mushroom"@,
        PizzaType::MightyVeg => "Mighty Veg"@,
    }
}

impl PizzaType {
    /// The price of one pizza of this type.
    pub fn get_cost(&self) -> (price: Money)
        ensures
            price@ == unit_price(*self),
    {
        match self {
            PizzaType::Pepperoni => Money::from_units(10),
            PizzaType::BrieChickenAndMushroom => Money::from_units(15),
            PizzaType::MightyVeg => Money::from_units(12),
        }
    }

    /// The name of this type as a receipt shows it.
    pub fn display_label(&self) -> (name: &'static str)
        ensures
            name@ == label(*self),
    {
        match self {
            PizzaType::Pepperoni => "Pepperoni",
            PizzaType::BrieChickenAndMushroom => "Brie, Chicken and Mushroom",
            PizzaType::MightyVeg => "Mighty Veg",
        }
    }
}

} // verus!
