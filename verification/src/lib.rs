//! Pricing of pizza orders in exact decimal arithmetic.
//!
//! An order collects lines of a pizza type and a quantity. Each line is
//! charged at the type's unit price under the multiplier of the day on which
//! it is added, and the grand total takes a bulk discount once more than five
//! pizzas have been ordered. Amounts are whole millionths of the currency
//! unit and multipliers are whole percents, so no sum is ever rounded.

pub mod catalog;
pub mod day;
pub mod laws;
pub mod line;
pub mod model;
pub mod money;
pub mod order;
pub mod pricing;
pub mod text;
