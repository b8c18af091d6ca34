use chrono::{Datelike, Timelike, Utc};
use curds::cron::datepart::CronDatePart;
use curds::cron::datetime::CronDateTime;
use curds::cron::expression::CronExpression;
use curds::cron::field::CronField;
use curds::cron::parsing::error::CronParsingError;
use curds::cron::parsing::parser::{CronFieldParser, CurdsCronParser};
use curds::cron::value::CronValue;
use std::sync::atomic::{AtomicUsize, Ordering};

fn now() -> CronDateTime {
    let moment = Utc::now();
    CronDateTime::new(moment.year(), moment.month(), moment.day(), moment.hour(), moment.minute()).unwrap()
}

#[test]
fn too_long_expression_fails() {
    CronExpression::parse::<CurdsCronParser>("* * * * * *")
        .expect_err("Expected a long expression to fail");
}

#[test]
fn too_short_expression_fails() {
    CronExpression::parse::<CurdsCronParser>("* * * *")
        .expect_err("Expected a short expression to fail");
}

static PARSE_CALLS: AtomicUsize = AtomicUsize::new(0);

struct ExpectingFieldParser;

impl CronFieldParser for ExpectingFieldParser {
    fn parse(date_part: CronDatePart, field: &str) -> Result<CronField, CronParsingError> {
        let expected = [
            (CronDatePart::Minutes, "Minutes"),
            (CronDatePart::Hours, "Hours"),
            (CronDatePart::DayOfMonth, "DayOfMonth"),
            (CronDatePart::Month, "Month"),
            (CronDatePart::DayOfWeek, "DayOfWeek"),
        ];
        let call = PARSE_CALLS.fetch_add(1, Ordering::SeqCst);
        assert_eq!(expected[call].0, date_part);
        assert_eq!(expected[call].1, field);
        Ok(CronField::new(date_part, Vec::<CronValue>::new()))
    }
}

#[test]
fn parses_correctly_with_parser() -> Result<(), CronParsingError> {
    CronExpression::parse::<ExpectingFieldParser>("Minutes Hours DayOfMonth Month DayOfWeek")?;
    assert_eq!(5, PARSE_CALLS.load(Ordering::SeqCst));
    Ok(())
}

fn false_field() -> CronField {
    CronField::new(CronDatePart::Minutes, vec![CronValue::Single(99)])
}
fn true_field() -> CronField {
    CronField::new(CronDatePart::Minutes, vec![CronValue::Any])
}

#[test]
fn any_nonmatch_field_returns_false() {
    let expression = CronExpression::from_fields(true_field(), false_field(), true_field(), true_field(), true_field());

    assert_eq!(false, expression.is_match(&now()));
}

#[test]
fn all_fields_match_returns_true() {
    let expression = CronExpression::from_fields(true_field(), true_field(), true_field(), true_field(), true_field());

    assert_eq!(true, expression.is_match(&now()));
}

#[test]
fn field_count_error_names_expression_and_count() {
    let error = "* * * *".parse::<CronExpression>().unwrap_err();
    assert_eq!(CronParsingError::FieldCount { expression: "* * * *".to_owned(), parts: 4 }, error);
    assert_eq!("Expression * * * * had 4 fields.", error.to_string());
}

#[test]
fn extra_spaces_do_not_make_fields() {
    assert!("  *   * * *  *  ".parse::<CronExpression>().is_ok());
}

#[test]
fn first_failing_field_decides_the_error() {
    let error = "60 25 * * *".parse::<CronExpression>().unwrap_err();
    assert_eq!(CronParsingError::ValueOutOfBounds {
        raw_value: "60".to_owned(),
        allowed: 59,
        supplied: 60,
        date_part: CronDatePart::Minutes,
    }, error);
}

#[test]
fn empty_value_in_field_fails() {
    let error = "1,,2 * * * *".parse::<CronExpression>().unwrap_err();
    assert_eq!(CronParsingError::ParsedValue { value: "".to_owned(), date_part: CronDatePart::Minutes }, error);
}

#[test]
fn expression_writes_out_its_fields() {
    let expression = "1,2 */3 L 3-6 MON#2".parse::<CronExpression>().unwrap();
    assert_eq!("1,2 */3 L 3-6 1#2", expression.to_string());
}

#[test]
fn error_messages() {
    assert_eq!("Value x is invalid for Hours.", CronParsingError::InvalidValue { date_part: CronDatePart::Hours, value: "x".to_owned() }.to_string());
    assert_eq!("Value '99'=>99 is outside the bound allowed 59", CronParsingError::ValueOutOfBounds { raw_value: "99".to_owned(), allowed: 59, supplied: 99, date_part: CronDatePart::Minutes }.to_string());
    assert_eq!("Blah could not parse into a value for Month", CronParsingError::ParsedValue { value: "Blah".to_owned(), date_part: CronDatePart::Month }.to_string());
    assert_eq!("Inverted range 4-1 is not allowed", CronParsingError::InvertedRange { min: 4, max: 1 }.to_string());
}

#[test]
fn expression_is_written_out_field_by_field() {
    let expression = CronExpression::parse::<CurdsCronParser>("*/3  1-5,7 L-2 MAR 1#2,SUNL").unwrap();
    assert_eq!("*/3 1-5,7 L-2 3 1#2,0L", expression.to_string());
    let wildcard: CronExpression = "* * 15W * *".parse().unwrap();
    assert_eq!("* * 15W * *", wildcard.to_string());
}
