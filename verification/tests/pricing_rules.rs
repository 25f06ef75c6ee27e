use pizza_order::catalog::PizzaType;
use pizza_order::day::{get_daily_discount, DayOfWeek};
use pizza_order::line::OrderLine;
use pizza_order::money::Money;
use pizza_order::order::PizzaOrder;

const DAYS: [DayOfWeek; 7] = [
    DayOfWeek::Mon,
    DayOfWeek::Tue,
    DayOfWeek::Wed,
    DayOfWeek::Thu,
    DayOfWeek::Fri,
    DayOfWeek::Sat,
    DayOfWeek::Sun,
];

const TYPES: [PizzaType; 3] =
    [PizzaType::Pepperoni, PizzaType::BrieChickenAndMushroom, PizzaType::MightyVeg];

fn cost_on(day: DayOfWeek, pizza_type: PizzaType, quantity: i64) -> Money {
    PizzaOrder::new_order_on(day).get_order_line_cost(&OrderLine { pizza_type, quantity })
}

#[test]
fn unit_prices_are_the_catalog_prices() {
    assert_eq!(PizzaType::Pepperoni.get_cost(), Money { micros: 10_000_000 });
    assert_eq!(PizzaType::BrieChickenAndMushroom.get_cost(), Money { micros: 15_000_000 });
    assert_eq!(PizzaType::MightyVeg.get_cost(), Money { micros: 12_000_000 });
    assert_eq!(PizzaType::Pepperoni.get_cost().micros as f64 / 1_000_000.0, 10.0);
    assert_eq!(PizzaType::BrieChickenAndMushroom.get_cost().micros as f64 / 1_000_000.0, 15.0);
    assert_eq!(PizzaType::MightyVeg.get_cost().micros as f64 / 1_000_000.0, 12.0);
}

#[test]
fn money_from_units_counts_millionths() {
    assert_eq!(Money::from_units(0), Money { micros: 0 });
    assert_eq!(Money::from_units(-3), Money { micros: -3_000_000 });
    assert_eq!(Money::from_units(i64::MAX), Money { micros: 9_223_372_036_854_775_807_000_000 });
    assert_eq!(Money::from_units(i64::MIN), Money { micros: -9_223_372_036_854_775_808_000_000 });
}

#[test]
fn display_labels_are_the_menu_names() {
    assert_eq!(PizzaType::Pepperoni.display_label(), "Pepperoni");
    assert_eq!(PizzaType::BrieChickenAndMushroom.display_label(), "Brie, Chicken and Mushroom");
    assert_eq!(PizzaType::MightyVeg.display_label(), "Mighty Veg");
}

#[test]
fn daily_discounts_by_day() {
    assert_eq!(get_daily_discount(DayOfWeek::Mon), 90);
    assert_eq!(get_daily_discount(DayOfWeek::Tue), 100);
    assert_eq!(get_daily_discount(DayOfWeek::Wed), 100);
    assert_eq!(get_daily_discount(DayOfWeek::Thu), 100);
    assert_eq!(get_daily_discount(DayOfWeek::Fri), 100);
    assert_eq!(get_daily_discount(DayOfWeek::Sat), 100);
    assert_eq!(get_daily_discount(DayOfWeek::Sun), 105);
    assert_eq!(get_daily_discount(DayOfWeek::Mon) as f64 / 100.0, 0.9);
    assert_eq!(get_daily_discount(DayOfWeek::Sun) as f64 / 100.0, 1.05);
}

#[test]
fn line_costs_by_day_and_type() {
    assert_eq!(cost_on(DayOfWeek::Mon, PizzaType::Pepperoni, 1), Money { micros: 9_000_000 });
    assert_eq!(cost_on(DayOfWeek::Mon, PizzaType::MightyVeg, 3), Money { micros: 32_400_000 });
    assert_eq!(
        cost_on(DayOfWeek::Mon, PizzaType::BrieChickenAndMushroom, 2),
        Money { micros: 30_000_000 }
    );
    assert_eq!(
        cost_on(DayOfWeek::Sun, PizzaType::BrieChickenAndMushroom, 2),
        Money { micros: 31_500_000 }
    );
    assert_eq!(cost_on(DayOfWeek::Sun, PizzaType::MightyVeg, 1), Money { micros: 12_600_000 });
    assert_eq!(cost_on(DayOfWeek::Thu, PizzaType::MightyVeg, 4), Money { micros: 48_000_000 });
    assert_eq!(cost_on(DayOfWeek::Sun, PizzaType::Pepperoni, 0), Money { micros: 0 });
    assert_eq!(cost_on(DayOfWeek::Mon, PizzaType::Pepperoni, -3), Money { micros: -27_000_000 });
}

#[test]
fn line_cost_is_linear_in_the_quantity() {
    for day in DAYS {
        for pizza_type in TYPES {
            let one: i128 = cost_on(day, pizza_type, 1).micros;
            for quantity in [0i64, 1, 2, 5, 6, 7, 1000, i64::MAX, -1, -40, i64::MIN] {
                assert_eq!(cost_on(day, pizza_type, quantity).micros, quantity as i128 * one);
            }
        }
    }
}

#[test]
fn dateless_orders_charge_the_unit_price() {
    let order = PizzaOrder::new_dateless_order();
    for pizza_type in TYPES {
        let line = OrderLine { pizza_type, quantity: 1 };
        assert_eq!(order.get_order_line_cost(&line), pizza_type.get_cost());
    }
}

#[test]
fn line_cost_follows_the_day_in_effect() {
    let mut order = PizzaOrder::new_dateless_order();
    let line = OrderLine { pizza_type: PizzaType::Pepperoni, quantity: 2 };
    assert_eq!(order.get_order_line_cost(&line), Money { micros: 20_000_000 });
    order.set_day(DayOfWeek::Mon);
    assert_eq!(order.get_order_line_cost(&line), Money { micros: 18_000_000 });
    order.set_day(DayOfWeek::Sun);
    assert_eq!(order.get_order_line_cost(&line), Money { micros: 21_000_000 });
}

#[test]
fn largest_line_cost_fits() {
    assert_eq!(
        cost_on(DayOfWeek::Sun, PizzaType::BrieChickenAndMushroom, i64::MAX),
        Money { micros: 15_750_000 * (i64::MAX as i128) }
    );
    assert_eq!(
        cost_on(DayOfWeek::Sun, PizzaType::BrieChickenAndMushroom, i64::MIN),
        Money { micros: 15_750_000 * (i64::MIN as i128) }
    );
}
