use curds::cron::datepart::CronDatePart;
use curds::cron::parsing::error::CronParsingError;
use curds::cron::parsing::handlers::{
    CronValueParsingHandler, LastDayOfMonthValueHandler, LastDayOfWeekValueHandler,
    NearestWeekdayValueHandler, NthDayOfWeekValueHandler, RangeValueHandler, SingleValueHandler,
    WildcardValueHandler,
};
use curds::cron::value::CronValue;

#[test]
fn captures_without_offset() {
    let test_object = LastDayOfMonthValueHandler;
    let actual = test_object.parse(&CronDatePart::DayOfMonth, "L").unwrap().unwrap();
    assert_eq!(CronValue::LastDayOfMonth { offset: 0 }, actual);
}

#[test]
fn captures_with_offset() {
    let test_object = LastDayOfMonthValueHandler;
    let actual = test_object.parse(&CronDatePart::DayOfMonth, "l-30").unwrap().unwrap();
    assert_eq!(CronValue::LastDayOfMonth { offset: 30 }, actual);
}

#[test]
fn last_day_of_month_nonmatch_returns_none() {
    let test_object = LastDayOfMonthValueHandler;
    assert_eq!(None, test_object.parse(&CronDatePart::DayOfMonth, "DayOfMonth"));
}

#[test]
fn offset_larger_than_allowed_returns_error() {
    let test_object = LastDayOfMonthValueHandler;
    test_object.parse(&CronDatePart::DayOfMonth, "L-31").unwrap().expect_err("Expected an offset that is out of bounds: ");
}

#[test]
fn parses_day_of_week_as_int() {
    let test_object = LastDayOfWeekValueHandler;
    let actual = test_object.parse(&CronDatePart::DayOfWeek, "001L").unwrap().unwrap();
    assert_eq!(CronValue::LastDayOfWeek { day_of_week: 1 }, actual);
}

#[test]
fn translates_values() {
    let test_object = LastDayOfWeekValueHandler;
    let actual = test_object.parse(&CronDatePart::DayOfWeek, "sAtl").unwrap().unwrap();
    assert_eq!(CronValue::LastDayOfWeek { day_of_week: 6 }, actual);
}

#[test]
fn last_day_of_week_nonmatch_returns_none() {
    let test_object = LastDayOfWeekValueHandler;
    assert_eq!(None, test_object.parse(&CronDatePart::DayOfWeek, "DayOfWeek"));
}

#[test]
fn last_day_of_week_value_larger_than_max_returns_error() {
    let test_object = LastDayOfWeekValueHandler;
    test_object.parse(&CronDatePart::DayOfWeek, "60l").unwrap().expect_err("Expected an out of bounds value: ");
}

#[test]
fn unparseable_value_returns_error() {
    let test_object = LastDayOfWeekValueHandler;
    test_object.parse(&CronDatePart::DayOfWeek, "OEUL").unwrap().expect_err("Expected an unparseable value: ");
}

#[test]
fn nearest_weekday_parses_value_as_int() {
    let test_object = NearestWeekdayValueHandler;
    let actual = test_object.parse(&CronDatePart::DayOfMonth, "20w").unwrap().unwrap();
    assert_eq!(CronValue::NearestWeekday { day_of_month: 20 }, actual);
}

#[test]
fn nearest_weekday_nonmatch_returns_none() {
    let test_object = NearestWeekdayValueHandler;
    assert_eq!(None, test_object.parse(&CronDatePart::DayOfMonth, "DayOfMonth"));
}

#[test]
fn nearest_weekday_value_larger_than_max_returns_error() {
    let test_object = NearestWeekdayValueHandler;
    test_object.parse(&CronDatePart::DayOfMonth, "32W").unwrap().expect_err("Expected a value out of bounds");
}

#[test]
fn value_less_than_min_returns_error() {
    let test_object = NearestWeekdayValueHandler;
    test_object.parse(&CronDatePart::DayOfMonth, "0w").unwrap().expect_err("Expected a value out of bounds");
}

#[test]
fn parses_values_correctly() {
    let test_object = NthDayOfWeekValueHandler;
    let actual = test_object.parse(&CronDatePart::DayOfWeek, "SUN#2").unwrap().unwrap();
    assert_eq!(CronValue::NthDayOfWeek { day_of_week: 0, n: 2 }, actual);
}

#[test]
fn nth_day_of_week_nonmatch_returns_none() {
    let test_object = NthDayOfWeekValueHandler;
    assert_eq!(None, test_object.parse(&CronDatePart::DayOfWeek, "DayOfWeek"));
}

#[test]
fn value_greater_than_max_returns_error() {
    let test_object = NthDayOfWeekValueHandler;
    test_object.parse(&CronDatePart::DayOfWeek, "60#2").unwrap().expect_err("Expected an out of bounds value: ");
}

#[test]
fn unparseable_returns_error() {
    let test_object = NthDayOfWeekValueHandler;
    test_object.parse(&CronDatePart::DayOfWeek, "OEU#2").unwrap().expect_err("Expected an unparseable value: ");
}

#[test]
fn parses_range_as_int() {
    let test_object = RangeValueHandler;
    let actual = test_object.parse(&CronDatePart::Minutes, "4-8").unwrap().unwrap();
    assert_eq!(CronValue::Range { min: 4, max: 8 }, actual);
}

#[test]
fn translates_min() {
    let test_object = RangeValueHandler;
    let actual = test_object.parse(&CronDatePart::Month, "MAR-6").unwrap().unwrap();
    assert_eq!(CronValue::Range { min: 3, max: 6 }, actual);
}

#[test]
fn translates_max() {
    let test_object = RangeValueHandler;
    let actual = test_object.parse(&CronDatePart::DayOfWeek, "4-sat").unwrap().unwrap();
    assert_eq!(CronValue::Range { min: 4, max: 6 }, actual);
}

#[test]
fn nonmatch_return_none() {
    let test_object = RangeValueHandler;
    assert_eq!(None, test_object.parse(&CronDatePart::DayOfWeek, "DayOfWeek"));
}

#[test]
fn nonint_min_returns_error() {
    let test_object = RangeValueHandler;
    test_object.parse(&CronDatePart::DayOfWeek, "OEU-5").unwrap().expect_err("Expected min to fail parsing: ");
}

#[test]
fn nonint_max_returns_error() {
    let test_object = RangeValueHandler;
    test_object.parse(&CronDatePart::DayOfWeek, "03-OEU").unwrap().expect_err("Expected max to fail parsing: ");
}

#[test]
fn inverted_range_returns_error() {
    let test_object = RangeValueHandler;
    test_object.parse(&CronDatePart::DayOfWeek, "THU-MON").unwrap().expect_err("Expected inverted range to error: ");
}

#[test]
fn single_parses_value_as_int() {
    let test_object = SingleValueHandler;
    let actual = test_object.parse(&CronDatePart::Hours, "6").unwrap().unwrap();
    assert_eq!(CronValue::Single(6), actual);
}

#[test]
fn translates_month() {
    let test_object = SingleValueHandler;
    let actual = test_object.parse(&CronDatePart::Month, "apr").unwrap().unwrap();
    assert_eq!(CronValue::Single(4), actual);
}

#[test]
fn translates_day_of_week() {
    let test_object = SingleValueHandler;
    let actual = test_object.parse(&CronDatePart::DayOfWeek, "thu").unwrap().unwrap();
    assert_eq!(CronValue::Single(4), actual);
}

#[test]
fn less_than_min_returns_error() {
    let test_object = SingleValueHandler;
    test_object.parse(&CronDatePart::Month, "0").unwrap().expect_err("Expected an error:");
}

#[test]
fn greater_than_max_returns_error() {
    let test_object = SingleValueHandler;
    test_object.parse(&CronDatePart::Month, "13").unwrap().expect_err("Expected an error:");
}

#[test]
fn nonint_returns_error() {
    let test_object = SingleValueHandler;
    test_object.parse(&CronDatePart::Month, "Blah").unwrap().expect_err("Expected an error trying to parse:");
}

#[test]
fn star_returns_any() {
    let test_object = WildcardValueHandler;
    let actual = test_object.parse(&CronDatePart::DayOfWeek, "*").unwrap().unwrap();
    assert_eq!(CronValue::Any, actual);
}

#[test]
fn parses_step_if_supplied() {
    let test_object = WildcardValueHandler;
    let actual = test_object.parse(&CronDatePart::DayOfWeek, "*/3").unwrap().unwrap();
    assert_eq!(CronValue::Step(3), actual);
}

#[test]
fn non_match_returns_none() {
    let test_object = WildcardValueHandler;
    assert_eq!(None, test_object.parse(&CronDatePart::Hours, "Hours"));
}

#[test]
fn step_smaller_than_allowed_returns_error() {
    let test_object = WildcardValueHandler;
    test_object.parse(&CronDatePart::Month, "*/1").unwrap().expect_err("Expected a step of 1 to error:");
}

#[test]
fn step_larger_than_allowed_returns_error() {
    let test_object = WildcardValueHandler;
    test_object.parse(&CronDatePart::Minutes, "*/60").unwrap().expect_err("Expected a step of 60 to error for Minutes:");
    test_object.parse(&CronDatePart::Month, "*/12").unwrap().expect_err("Expected a step of 12 to error for Months:");
}

#[test]
fn errors_carry_what_was_supplied() {
    assert_eq!(Some(Err(CronParsingError::ValueOutOfBounds {
        raw_value: "*/1".to_owned(), allowed: 2, supplied: 1, date_part: CronDatePart::Month,
    })), WildcardValueHandler.parse(&CronDatePart::Month, "*/1"));
    assert_eq!(Some(Err(CronParsingError::ValueOutOfBounds {
        raw_value: "*/12".to_owned(), allowed: 11, supplied: 12, date_part: CronDatePart::Month,
    })), WildcardValueHandler.parse(&CronDatePart::Month, "*/12"));
    assert_eq!(Some(Err(CronParsingError::InvertedRange { min: 4, max: 1 })),
        RangeValueHandler.parse(&CronDatePart::DayOfWeek, "THU-MON"));
    assert_eq!(Some(Err(CronParsingError::ParsedValue { value: "OEU".to_owned(), date_part: CronDatePart::DayOfWeek })),
        RangeValueHandler.parse(&CronDatePart::DayOfWeek, "OEU-5"));
    assert_eq!(Some(Err(CronParsingError::ValueOutOfBounds {
        raw_value: "L-31".to_owned(), allowed: 30, supplied: 31, date_part: CronDatePart::DayOfMonth,
    })), LastDayOfMonthValueHandler.parse(&CronDatePart::DayOfMonth, "L-31"));
    assert_eq!(Some(Err(CronParsingError::ParsedValue { value: "Blah".to_owned(), date_part: CronDatePart::Month })),
        SingleValueHandler.parse(&CronDatePart::Month, "Blah"));
}

#[test]
fn single_accepts_a_plus_sign_like_str_parse() {
    assert_eq!(Some(Ok(CronValue::Single(5))), SingleValueHandler.parse(&CronDatePart::Hours, "+5"));
    assert!(matches!(SingleValueHandler.parse(&CronDatePart::Hours, "+"), Some(Err(_))));
}

#[test]
fn step_too_long_for_u32_is_refused() {
    assert_eq!(Some(Err(CronParsingError::ParsedValue { value: "*/99999999999".to_owned(), date_part: CronDatePart::Minutes })),
        WildcardValueHandler.parse(&CronDatePart::Minutes, "*/99999999999"));
}

#[test]
fn nth_day_of_week_needs_occurrence_one_to_five() {
    assert_eq!(None, NthDayOfWeekValueHandler.parse(&CronDatePart::DayOfWeek, "MON#6"));
    assert_eq!(Some(Ok(CronValue::NthDayOfWeek { day_of_week: 1, n: 5 })), NthDayOfWeekValueHandler.parse(&CronDatePart::DayOfWeek, "1#5"));
}
