//! Days of the week, their discount multipliers, and the local clock.

use vstd::prelude::*;
use chrono::Datelike;

verus! {

/// A day of the week.
#[derive(Clone, Copy, Debug, PartialEq, Eq, Structural)]
pub enum DayOfWeek {
    Mon,
    Tue,
    Wed,
    Thu,
    Fri,
    Sat,
    Sun,
}

/// The multiplier that a day puts on unit prices, in percent: 90 on Mondays,
/// 105 on Sundays and 100 on every other day.
pub open spec fn daily_percent(day: DayOfWeek) -> int {
    match day {
        DayOfWeek::Mon => 90,
        DayOfWeek::Sun => 105,
        _ => 100,
    }
}

/// The discount multiplier of the given day, in percent.
pub fn get_daily_discount(current_day: DayOfWeek) -> (percent: u32)
    ensures
        percent == daily_percent(current_day),
{
    match current_day {
        DayOfWeek::Mon => 90,
        DayOfWeek::Tue => 100,
        DayOfWeek::Wed => 100,
        DayOfWeek::Thu => 100,
        DayOfWeek::Fri => 100,
        DayOfWeek::Sat => 100,
        DayOfWeek::Sun => 105,
    }
}

/// Today's day of the week by the machine's local clock, read through
/// `chrono::Local::now` and `chrono::Datelike::weekday`. Nothing is claimed
/// of the day that comes back: callers hold for each of the seven. The clock
/// read fails, as chrono documents, on a machine whose time lies before the
/// Unix epoch.
#[verifier::external_body]
pub(crate) fn local_weekday() -> (today: DayOfWeek) {
    match chrono::Local::now().weekday() {
        chrono::Weekday::Mon => DayOfWeek::Mon,
        chrono::Weekday::Tue => DayOfWeek::Tue,
        chrono::Weekday::Wed => DayOfWeek::Wed,
        chrono::Weekday::Thu => DayOfWeek::Thu,
        chrono::Weekday::Fri => DayOfWeek::Fri,
        chrono::Weekday::Sat => DayOfWeek::Sat,
        chrono::Weekday::Sun => DayOfWeek::Sun,
    }
}

} // verus!
