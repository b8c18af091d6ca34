//! The five parts of a date that the fields of an expression stand for.
use vstd::prelude::*;
use super::datetime::CronDateTime;
use super::text::{chars_of, spells, spells_exec};

verus! {

/// The part of a date that a field of a cron expression constrains.
#[derive(Debug, Clone, Copy, PartialEq, Eq, Structural)]
pub enum CronDatePart {
    Minutes,
    Hours,
    DayOfMonth,
    Month,
    DayOfWeek,
}

/// The value of a date part at a moment.
pub open spec fn spec_fetch(date_part: CronDatePart, datetime: CronDateTime) -> u32 {
    match date_part {
        CronDatePart::Minutes => datetime.minute,
        CronDatePart::Hours => datetime.hour,
        CronDatePart::DayOfMonth => datetime.day,
        CronDatePart::Month => datetime.month,
        CronDatePart::DayOfWeek => datetime.weekday,
    }
}

/// The least value a date part takes.
pub open spec fn spec_min(date_part: CronDatePart) -> u32 {
    match date_part {
        CronDatePart::Minutes | CronDatePart::Hours | CronDatePart::DayOfWeek => 0,
        CronDatePart::DayOfMonth | CronDatePart::Month => 1,
    }
}

/// The greatest value a date part takes.
pub open spec fn spec_max(date_part: CronDatePart) -> u32 {
    match date_part {
        CronDatePart::Minutes => 59,
        CronDatePart::Hours => 23,
        CronDatePart::DayOfMonth => 31,
        CronDatePart::Month => 12,
        CronDatePart::DayOfWeek => 6,
    }
}

/// The number that a three-letter month name stands for.
pub open spec fn month_number(s: Seq<char>) -> Option<Seq<char>> {
    if spells(s, 'j', 'a', 'n') { Some(seq!['1']) }
    else if spells(s, 'f', 'e', 'b') { Some(seq!['2']) }
    else if spells(s, 'm', 'a', 'r') { Some(seq!['3']) }
    else if spells(s, 'a', 'p', 'r') { Some(seq!['4']) }
    else if spells(s, 'm', 'a', 'y') { Some(seq!['5']) }
    else if spells(s, 'j', 'u', 'n') { Some(seq!['6']) }
    else if spells(s, 'j', 'u', 'l') { Some(seq!['7']) }
    else if spells(s, 'a', 'u', 'g') { Some(seq!['8']) }
    else if spells(s, 's', 'e', 'p') { Some(seq!['9']) }
    else if spells(s, 'o', 'c', 't') { Some(seq!['1', '0']) }
    else if spells(s, 'n', 'o', 'v') { Some(seq!['1', '1']) }
    else if spells(s, 'd', 'e', 'c') { Some(seq!['1', '2']) }
    else { None }
}

/// The number that a three-letter day name stands for.
pub open spec fn weekday_number(s: Seq<char>) -> Option<Seq<char>> {
    if spells(s, 's', 'u', 'n') { Some(seq!['0']) }
    else if spells(s, 'm', 'o', 'n') { Some(seq!['1']) }
    else if spells(s, 't', 'u', 'e') { Some(seq!['2']) }
    else if spells(s, 'w', 'e', 'd') { Some(seq!['3']) }
    else if spells(s, 't', 'h', 'u') { Some(seq!['4']) }
    else if spells(s, 'f', 'r', 'i') { Some(seq!['5']) }
    else if spells(s, 's', 'a', 't') { Some(seq!['6']) }
    else { None }
}

/// A value with month and day names replaced by their numbers.
pub open spec fn spec_translate(date_part: CronDatePart, value: Seq<char>) -> Seq<char> {
    match date_part {
        CronDatePart::Month => match month_number(value) {
            Some(number) => number,
            None => value,
        },
        CronDatePart::DayOfWeek => match weekday_number(value) {
            Some(number) => number,
            None => value,
        },
        _ => value,
    }
}

impl CronDatePart {
    /// The name of the date part.
    pub fn to_string(&self) -> (r: String)
        ensures
            r@ == self.spec_name(),
    {
        match self {
            CronDatePart::Minutes => String::from_str("Minutes"),
            CronDatePart::Hours => String::from_str("Hours"),
            CronDatePart::DayOfMonth => String::from_str("DayOfMonth"),
            CronDatePart::Month => String::from_str("Month"),
            CronDatePart::DayOfWeek => String::from_str("DayOfWeek"),
        }
    }

    pub open spec fn spec_name(&self) -> Seq<char> {
        match self {
            CronDatePart::Minutes => "Minutes"@,
            CronDatePart::Hours => "Hours"@,
            CronDatePart::DayOfMonth => "DayOfMonth"@,
            CronDatePart::Month => "Month"@,
            CronDatePart::DayOfWeek => "DayOfWeek"@,
        }
    }

    /// The value of this date part at a moment.
    pub fn fetch(&self, datetime: &CronDateTime) -> (r: u32)
        ensures
            r == spec_fetch(*self, *datetime),
    {
        match self {
            CronDatePart::Minutes => datetime.minute,
            CronDatePart::Hours => datetime.hour,
            CronDatePart::DayOfMonth => datetime.day,
            CronDatePart::Month => datetime.month,
            CronDatePart::DayOfWeek => datetime.weekday,
        }
    }

    pub fn min(&self) -> (r: u32)
        ensures
            r == spec_min(*self),
    {
        match self {
            CronDatePart::Minutes | CronDatePart::Hours | CronDatePart::DayOfWeek => 0,
            CronDatePart::DayOfMonth | CronDatePart::Month => 1,
        }
    }

    pub fn max(&self) -> (r: u32)
        ensures
            r == spec_max(*self),
    {
        match self {
            CronDatePart::Minutes => 59,
            CronDatePart::Hours => 23,
            CronDatePart::DayOfMonth => 31,
            CronDatePart::Month => 12,
            CronDatePart::DayOfWeek => 6,
        }
    }

    /// Replaces a three-letter month name (for `Month`) or day name (for
    /// `DayOfWeek`), in any ASCII case, by its number; hands any other
    /// value back unchanged.
    pub fn translate<'a>(&self, value: &'a str) -> (r: &'a str)
        ensures
            r@ == spec_translate(*self, value@),
    {
        let chars = chars_of(value);
        match self {
            CronDatePart::Month => {
                proof {
                    reveal_strlit("1");
                    reveal_strlit("2");
                    reveal_strlit("3");
                    reveal_strlit("4");
                    reveal_strlit("5");
                    reveal_strlit("6");
                    reveal_strlit("7");
                    reveal_strlit("8");
                    reveal_strlit("9");
                    reveal_strlit("10");
                    reveal_strlit("11");
                    reveal_strlit("12");
                }
                if spells_exec(&chars, 'j', 'a', 'n') { "1" }
                else if spells_exec(&chars, 'f', 'e', 'b') { "2" }
                else if spells_exec(&chars, 'm', 'a', 'r') { "3" }
                else if spells_exec(&chars, 'a', 'p', 'r') { "4" }
                else if spells_exec(&chars, 'm', 'a', 'y') { "5" }
                else if spells_exec(&chars, 'j', 'u', 'n') { "6" }
                else if spells_exec(&chars, 'j', 'u', 'l') { "7" }
                else if spells_exec(&chars, 'a', 'u', 'g') { "8" }
                else if spells_exec(&chars, 's', 'e', 'p') { "9" }
                else if spells_exec(&chars, 'o', 'c', 't') { "10" }
                else if spells_exec(&chars, 'n', 'o', 'v') { "11" }
                else if spells_exec(&chars, 'd', 'e', 'c') { "12" }
                else { value }
            },
            CronDatePart::DayOfWeek => {
                proof {
                    reveal_strlit("0");
                    reveal_strlit("1");
                    reveal_strlit("2");
                    reveal_strlit("3");
                    reveal_strlit("4");
                    reveal_strlit("5");
                    reveal_strlit("6");
                }
                if spells_exec(&chars, 's', 'u', 'n') { "0" }
                else if spells_exec(&chars, 'm', 'o', 'n') { "1" }
                else if spells_exec(&chars, 't', 'u', 'e') { "2" }
                else if spells_exec(&chars, 'w', 'e', 'd') { "3" }
                else if spells_exec(&chars, 't', 'h', 'u') { "4" }
                else if spells_exec(&chars, 'f', 'r', 'i') { "5" }
                else if spells_exec(&chars, 's', 'a', 't') { "6" }
                else { value }
            },
            _ => value,
        }
    }
}

} // verus!
