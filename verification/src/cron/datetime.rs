//! The calendar moment that a cron expression is tested against.
use vstd::prelude::*;

verus! {

/// The earliest year that `chrono::NaiveDate` represents.
pub const MIN_CALENDAR_YEAR: i32 = -262143;
/// The latest year that `chrono::NaiveDate` represents.
pub const MAX_CALENDAR_YEAR: i32 = 262142;

/// A leap year of the proleptic Gregorian calendar.
pub open spec fn is_gregorian_leap_year(year: int) -> bool {
    year % 4 == 0 && (year % 100 != 0 || year % 400 == 0)
}

/// The number of days in a month of the proleptic Gregorian calendar.
pub open spec fn gregorian_days_in_month(year: int, month: int) -> int {
    if month == 2 {
        if is_gregorian_leap_year(year) { 29 } else { 28 }
    } else if month == 4 || month == 6 || month == 9 || month == 11 {
        30
    } else {
        31
    }
}

/// A date that exists and that `chrono::NaiveDate` can hold.
pub open spec fn valid_calendar_date(year: int, month: int, day: int) -> bool {
    &&& MIN_CALENDAR_YEAR <= year <= MAX_CALENDAR_YEAR
    &&& 1 <= month <= 12
    &&& 1 <= day <= gregorian_days_in_month(year, month)
}

/// The days of the months before `month` in a year of the proleptic
/// Gregorian calendar.
pub open spec fn days_before_month(year: int, month: int) -> int
    decreases month,
{
    if month <= 1 {
        0
    } else {
        days_before_month(year, month - 1) + gregorian_days_in_month(year, month - 1)
    }
}

/// The number of a day of the proleptic Gregorian calendar, counted so that
/// 1 January of the year 1 is day 1.
pub open spec fn day_number(year: int, month: int, day: int) -> int {
    let before = year - 1;
    365 * before + before / 4 - before / 100 + before / 400 + days_before_month(year, month) + day
}

/// The day of the week of a date, counted from Sunday as 0 (1 January of
/// the year 1 was a Monday).
pub open spec fn gregorian_weekday(year: int, month: int, day: int) -> int {
    day_number(year, month, day) % 7
}

/// Calls `chrono::NaiveDate::from_ymd_opt` and, for a date that exists,
/// `Datelike::weekday` and `Weekday::num_days_from_sunday` on it. Claimed,
/// as chrono's documentation says: a date is returned exactly for the dates
/// that exist in chrono's range, its calendar is the proleptic Gregorian
/// one, and its weekday is counted from Sunday as 0.
#[verifier::external_body]
fn calendar_weekday(year: i32, month: u32, day: u32) -> (r: Option<u32>)
    ensures
        r.is_some() <==> valid_calendar_date(year as int, month as int, day as int),
        r matches Some(w) ==> w == gregorian_weekday(year as int, month as int, day as int),
{
    match chrono::NaiveDate::from_ymd_opt(year, month, day) {
        Some(date) => Some(chrono::Weekday::num_days_from_sunday(&chrono::Datelike::weekday(&date))),
        None => None,
    }
}

/// A minute of a calendar day: what the fields of a cron expression are
/// matched against.
#[derive(Debug, Clone, Copy)]
pub struct CronDateTime {
    pub year: i32,
    pub month: u32,
    pub day: u32,
    pub hour: u32,
    pub minute: u32,
    /// Days since Sunday (Sunday is 0, Saturday is 6).
    pub weekday: u32,
}

impl CronDateTime {
    /// A moment that exists: a real date of chrono's calendar with its
    /// weekday, and a time of day.
    pub open spec fn wf(&self) -> bool {
        &&& valid_calendar_date(self.year as int, self.month as int, self.day as int)
        &&& self.hour < 24
        &&& self.minute < 60
        &&& self.weekday < 7
        &&& self.weekday == gregorian_weekday(
            self.year as int,
            self.month as int,
            self.day as int,
        )
    }

    /// The moment `year-month-day hour:minute`, or `None` when no such
    /// moment exists.
    pub fn new(year: i32, month: u32, day: u32, hour: u32, minute: u32) -> (r: Option<CronDateTime>)
        ensures
            r.is_some() <==> (valid_calendar_date(year as int, month as int, day as int) && hour < 24
                && minute < 60),
            r matches Some(d) ==> {
                &&& d.wf()
                &&& d.year == year
                &&& d.month == month
                &&& d.day == day
                &&& d.hour == hour
                &&& d.minute == minute
            },
    {
        if hour >= 24 || minute >= 60 {
            return None;
        }
        match calendar_weekday(year, month, day) {
            Some(weekday) => Some(CronDateTime { year, month, day, hour, minute, weekday }),
            None => None,
        }
    }

    /// Whether the date seven days later lies in another month.
    pub open spec fn spec_last_week_of_month(&self) -> bool {
        self.day + 7 > gregorian_days_in_month(self.year as int, self.month as int)
    }

    pub fn is_last_week_of_month(&self) -> (r: bool)
        requires
            self.wf(),
        ensures
            r == self.spec_last_week_of_month(),
    {
        let year = self.year;
        let leap = year % 4 == 0 && (year % 100 != 0 || year % 400 == 0);
        let days: u32 = if self.month == 2 {
            if leap { 29 } else { 28 }
        } else if self.month == 4 || self.month == 6 || self.month == 9 || self.month == 11 {
            30
        } else {
            31
        };
        self.day + 7 > days
    }
}

/// A year of the calendar has 365 days, and 366 in a leap year.
pub proof fn law_year_length(year: int)
    ensures
        days_before_month(year, 13) == if is_gregorian_leap_year(year) { 366int } else { 365int },
{
    reveal_with_fuel(days_before_month, 13);
}

} // verus!
