use chrono::{Datelike, Timelike, Utc};
use curds::cron::datepart::CronDatePart;
use curds::cron::datetime::CronDateTime;
use curds::cron::field::CronField;
use curds::cron::value::CronValue;

fn now() -> CronDateTime {
    let moment = Utc::now();
    CronDateTime::new(moment.year(), moment.month(), moment.day(), moment.hour(), moment.minute()).unwrap()
}

#[test]
fn displays_values() {
    let test_object = CronField {
        date_part: CronDatePart::Minutes,
        values: vec![CronValue::Any, CronValue::Any, CronValue::Any],
    };

    assert_eq!("*,*,*", &test_object.to_string());
}

#[test]
fn new_builds_expected() {
    let field = CronField::new(CronDatePart::DayOfWeek, vec!(CronValue::Any));

    assert_eq!(CronDatePart::DayOfWeek, field.date_part);
    assert_eq!(1, field.values.len());
}

#[test]
fn matches_if_any_value() {
    let values = vec![CronValue::Single(99), CronValue::Any, CronValue::Single(99)];
    let test_object = CronField::new(CronDatePart::Hours, values);

    assert_eq!(true, test_object.is_match(&now()));
}

#[test]
fn doesnt_match_when_no_values_match() {
    let values = vec![CronValue::Single(99)];
    let test_object = CronField::new(CronDatePart::Hours, values);

    assert_eq!(false, test_object.is_match(&now()));
}

#[test]
fn displays_every_kind_of_value() {
    let test_object = CronField::new(CronDatePart::DayOfMonth, vec![
        CronValue::Single(5),
        CronValue::Step(3),
        CronValue::Range { min: 1, max: 15 },
        CronValue::LastDayOfMonth { offset: 0 },
        CronValue::LastDayOfMonth { offset: 2 },
        CronValue::LastDayOfWeek { day_of_week: 5 },
        CronValue::NthDayOfWeek { day_of_week: 1, n: 2 },
        CronValue::NearestWeekday { day_of_month: 15 },
    ]);

    assert_eq!("5,*/3,1-15,L,L-2,5L,1#2,15W", test_object.to_string());
}

#[test]
fn empty_field_displays_nothing() {
    assert_eq!("", CronField::new(CronDatePart::Hours, vec![]).to_string());
}
