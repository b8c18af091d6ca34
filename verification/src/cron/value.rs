//! The values that make up a field, and when each one matches a moment.
use vstd::prelude::*;
use super::datepart::{CronDatePart, spec_fetch, spec_min};
use super::datetime::{CronDateTime, gregorian_days_in_month, valid_calendar_date};
use super::text::{decimal_digits, decimal_string};

verus! {

/// One comma-separated value of a field.
#[derive(Debug, Clone, Copy, PartialEq, Eq, Structural)]
pub enum CronValue {
    /// `*`: every value.
    Any,
    /// A single value, such as `5` or `MON`.
    Single(u32),
    /// `*/n`: every `n`th value, counted from the least one.
    Step(u32),
    /// `a-b`: the values from `a` to `b`, both included.
    Range { min: u32, max: u32 },
    /// `L` or `L-n`: the last day of the month, or the day `n` days before it.
    LastDayOfMonth { offset: u32 },
    /// `dL`: the last such weekday of the month.
    LastDayOfWeek { day_of_week: u32 },
    /// `d#n`: the `n`th such weekday of the month.
    NthDayOfWeek { day_of_week: u32, n: u32 },
    /// `dW`: the weekday nearest to the given day of the month.
    NearestWeekday { day_of_month: u32 },
}

/// The last day of a month of the proleptic Gregorian calendar: February
/// has a 29th in years divisible by 4, except the centuries that are not
/// divisible by 400.
pub open spec fn spec_last_day_of_month(year: int, month: int) -> u32 {
    if month == 1 || month == 3 || month == 5 || month == 7 || month == 8 || month == 10
        || month == 12 {
        31
    } else if month == 4 || month == 6 || month == 9 || month == 11 {
        30
    } else if year % 4 == 0 && (year % 100 != 0 || year % 400 == 0) {
        29
    } else {
        28
    }
}

/// The occurrence of a day within its month's weeks: days 1 to 7 are the
/// first, 8 to 14 the second, and so on.
pub open spec fn spec_occurrence(day: u32) -> int {
    (day - 1) / 7 + 1
}

impl CronValue {
    /// Values that can be matched: a step of zero divides by zero.
    pub open spec fn wf(&self) -> bool {
        !(self matches CronValue::Step(0))
    }

    /// Whether this value, standing in the field for `date_part`, matches
    /// the moment `datetime`.
    pub open spec fn spec_is_match(&self, date_part: CronDatePart, datetime: CronDateTime) -> bool {
        let part = spec_fetch(date_part, datetime);
        match *self {
            CronValue::Any => true,
            CronValue::Single(value) => part == value,
            CronValue::Step(value) => (part - spec_min(date_part)) % (value as int) == 0,
            CronValue::Range { min, max } => min <= part && part <= max,
            CronValue::LastDayOfMonth { offset } => {
                let last = spec_last_day_of_month(datetime.year as int, datetime.month as int);
                offset <= last && part == last - offset
            },
            CronValue::LastDayOfWeek { day_of_week } => part == day_of_week
                && datetime.spec_last_week_of_month(),
            CronValue::NthDayOfWeek { day_of_week, n } => part == day_of_week
                && spec_occurrence(datetime.day) == n,
            CronValue::NearestWeekday { day_of_month } => {
                if datetime.weekday == 0 || datetime.weekday == 6 {
                    false
                } else if datetime.weekday == 1 {
                    part == day_of_month || part == day_of_month + 1
                } else if datetime.weekday == 5 {
                    part == day_of_month || part + 1 == day_of_month
                } else {
                    part == day_of_month
                }
            },
        }
    }

    /// The value written the way an expression writes it.
    pub open spec fn spec_text(&self) -> Seq<char> {
        match *self {
            CronValue::Any => seq!['*'],
            CronValue::Single(value) => decimal_digits(value as nat),
            CronValue::Step(value) => seq!['*', '/'] + decimal_digits(value as nat),
            CronValue::Range { min, max } => decimal_digits(min as nat) + seq!['-'] + decimal_digits(
                max as nat,
            ),
            CronValue::LastDayOfMonth { offset } => if offset == 0 {
                seq!['L']
            } else {
                seq!['L', '-'] + decimal_digits(offset as nat)
            },
            CronValue::LastDayOfWeek { day_of_week } => decimal_digits(day_of_week as nat) + seq![
                'L',
            ],
            CronValue::NthDayOfWeek { day_of_week, n } => decimal_digits(day_of_week as nat) + seq![
                '#',
            ] + decimal_digits(n as nat),
            CronValue::NearestWeekday { day_of_month } => decimal_digits(day_of_month as nat)
                + seq!['W'],
        }
    }

    /// Whether this value matches `datetime` in the field for `date_part`.
    pub fn is_match(&self, date_part: &CronDatePart, datetime: &CronDateTime) -> (r: bool)
        requires
            self.wf(),
            datetime.wf(),
        ensures
            r == self.spec_is_match(*date_part, *datetime),
    {
        let part = date_part.fetch(datetime);
        match *self {
            CronValue::Any => true,
            CronValue::Single(value) => value == part,
            CronValue::Step(value) => (part - date_part.min()) % value == 0,
            CronValue::Range { min, max } => min <= part && max >= part,
            CronValue::LastDayOfMonth { offset } => {
                let last = CronValue::last_day_of_month(datetime);
                offset <= last && part == last - offset
            },
            CronValue::LastDayOfWeek { day_of_week } => part == day_of_week
                && datetime.is_last_week_of_month(),
            CronValue::NthDayOfWeek { day_of_week, n } => {
                let occurrence = (datetime.day - 1) / 7 + 1;
                part == day_of_week && occurrence == n
            },
            CronValue::NearestWeekday { day_of_month } => {
                if datetime.weekday == 0 || datetime.weekday == 6 {
                    false
                } else if datetime.weekday == 1 {
                    part == day_of_month || (part >= 1 && part - 1 == day_of_month)
                } else if datetime.weekday == 5 {
                    part == day_of_month || (day_of_month >= 1 && part == day_of_month - 1)
                } else {
                    part == day_of_month
                }
            },
        }
    }

    fn last_day_of_month(datetime: &CronDateTime) -> (r: u32)
        requires
            datetime.wf(),
        ensures
            r == spec_last_day_of_month(datetime.year as int, datetime.month as int),
    {
        match datetime.month {
            1 | 3 | 5 | 7 | 8 | 10 | 12 => 31,
            4 | 6 | 9 | 11 => 30,
            _ => if datetime.year % 4 == 0 && (datetime.year % 100 != 0 || datetime.year % 400 == 0) {
                29
            } else {
                28
            },
        }
    }

    /// The value written the way an expression writes it (`*`, `5`, `*/3`,
    /// `1-5`, `L-2`, `5L`, `1#2`, `15W`).
    pub fn to_string(&self) -> (r: String)
        ensures
            r@ == self.spec_text(),
    {
        proof {
            reveal_strlit("*");
            reveal_strlit("*/");
            reveal_strlit("-");
            reveal_strlit("L");
            reveal_strlit("L-");
            reveal_strlit("#");
            reveal_strlit("W");
        }
        match *self {
            CronValue::Any => String::from_str("*"),
            CronValue::Single(value) => decimal_string(value as u64),
            CronValue::Step(value) => String::from_str("*/").concat(decimal_string(value as u64).as_str()),
            CronValue::Range { min, max } => decimal_string(min as u64).concat("-").concat(
                decimal_string(max as u64).as_str(),
            ),
            CronValue::LastDayOfMonth { offset } => if offset == 0 {
                String::from_str("L")
            } else {
                String::from_str("L-").concat(decimal_string(offset as u64).as_str())
            },
            CronValue::LastDayOfWeek { day_of_week } => decimal_string(day_of_week as u64).concat("L"),
            CronValue::NthDayOfWeek { day_of_week, n } => decimal_string(day_of_week as u64).concat(
                "#",
            ).concat(decimal_string(n as u64).as_str()),
            CronValue::NearestWeekday { day_of_month } => decimal_string(day_of_month as u64).concat("W"),
        }
    }
}

/// `L` is the calendar's last day of the month: for every moment that
/// exists, the last day that `L` and `L-n` count from is the number of days
/// that month has, so `L-n` matches exactly on the day `n` days before the
/// day after which the month has no more days (`L` itself on that day).
pub proof fn law_last_day_is_the_calendar_last_day(datetime: CronDateTime, offset: u32)
    requires
        datetime.wf(),
    ensures
        spec_last_day_of_month(datetime.year as int, datetime.month as int) == gregorian_days_in_month(
            datetime.year as int,
            datetime.month as int,
        ),
        (CronValue::LastDayOfMonth { offset: 0 }).spec_is_match(CronDatePart::DayOfMonth, datetime)
            <==> !valid_calendar_date(datetime.year as int, datetime.month as int, datetime.day + 1),
        (CronValue::LastDayOfMonth { offset }).spec_is_match(CronDatePart::DayOfMonth, datetime) <==> (
        valid_calendar_date(datetime.year as int, datetime.month as int, datetime.day + offset)
            && !valid_calendar_date(
            datetime.year as int,
            datetime.month as int,
            datetime.day + offset + 1,
        )),
{
}

} // verus!
