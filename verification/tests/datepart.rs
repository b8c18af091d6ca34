use chrono::{Datelike, Duration, Timelike, Utc};
use curds::cron::datepart::CronDatePart;
use curds::cron::datetime::CronDateTime;

fn of(moment: chrono::DateTime<Utc>) -> CronDateTime {
    CronDateTime::new(moment.year(), moment.month(), moment.day(), moment.hour(), moment.minute()).unwrap()
}

#[test]
fn fetches_date_part() {
    let moment = Utc::now();
    let now = of(moment);

    assert_eq!(moment.minute(), CronDatePart::Minutes.fetch(&now));
    assert_eq!(moment.hour(), CronDatePart::Hours.fetch(&now));
    assert_eq!(moment.day(), CronDatePart::DayOfMonth.fetch(&now));
    assert_eq!(moment.month(), CronDatePart::Month.fetch(&now));
}

#[test]
fn fetches_day_of_week_part() {
    let sunday = "2021-04-04T00:00:00Z".parse::<chrono::DateTime<Utc>>().unwrap();

    assert_eq!(0, CronDatePart::DayOfWeek.fetch(&of(sunday)));
    assert_eq!(1, CronDatePart::DayOfWeek.fetch(&of(sunday + Duration::days(1))));
    assert_eq!(2, CronDatePart::DayOfWeek.fetch(&of(sunday + Duration::days(2))));
    assert_eq!(3, CronDatePart::DayOfWeek.fetch(&of(sunday + Duration::days(3))));
    assert_eq!(4, CronDatePart::DayOfWeek.fetch(&of(sunday + Duration::days(4))));
    assert_eq!(5, CronDatePart::DayOfWeek.fetch(&of(sunday + Duration::days(5))));
    assert_eq!(6, CronDatePart::DayOfWeek.fetch(&of(sunday + Duration::days(6))));
}

#[test]
fn min_is_expected() {
    assert_eq!(0, CronDatePart::Minutes.min());
    assert_eq!(0, CronDatePart::Hours.min());
    assert_eq!(1, CronDatePart::DayOfMonth.min());
    assert_eq!(1, CronDatePart::Month.min());
    assert_eq!(0, CronDatePart::DayOfWeek.min());
}

#[test]
fn max_is_expected() {
    assert_eq!(59, CronDatePart::Minutes.max());
    assert_eq!(23, CronDatePart::Hours.max());
    assert_eq!(31, CronDatePart::DayOfMonth.max());
    assert_eq!(12, CronDatePart::Month.max());
    assert_eq!(6, CronDatePart::DayOfWeek.max());
}

#[test]
fn months_translate() {
    assert_eq!("1", CronDatePart::Month.translate("JAN"));
    assert_eq!("2", CronDatePart::Month.translate("feb"));
    assert_eq!("3", CronDatePart::Month.translate("mAr"));
    assert_eq!("4", CronDatePart::Month.translate("Apr"));
    assert_eq!("5", CronDatePart::Month.translate("may"));
    assert_eq!("6", CronDatePart::Month.translate("jUN"));
    assert_eq!("7", CronDatePart::Month.translate("juL"));
    assert_eq!("8", CronDatePart::Month.translate("AUG"));
    assert_eq!("9", CronDatePart::Month.translate("SEP"));
    assert_eq!("10", CronDatePart::Month.translate("OCT"));
    assert_eq!("11", CronDatePart::Month.translate("nov"));
    assert_eq!("12", CronDatePart::Month.translate("dec"));
    assert_eq!("anything", CronDatePart::Month.translate("anything"));
}

#[test]
fn days_of_week_translate() {
    assert_eq!("0", CronDatePart::DayOfWeek.translate("sun"));
    assert_eq!("1", CronDatePart::DayOfWeek.translate("MON"));
    assert_eq!("2", CronDatePart::DayOfWeek.translate("tue"));
    assert_eq!("3", CronDatePart::DayOfWeek.translate("Wed"));
    assert_eq!("4", CronDatePart::DayOfWeek.translate("tHu"));
    assert_eq!("5", CronDatePart::DayOfWeek.translate("frI"));
    assert_eq!("6", CronDatePart::DayOfWeek.translate("sat"));
    assert_eq!("anything", CronDatePart::DayOfWeek.translate("anything"));
}

#[test]
fn other_translation_returns_self() {
    let anything = "anything";

    assert_eq!(anything, CronDatePart::Minutes.translate(anything));
    assert_eq!(anything, CronDatePart::Hours.translate(anything));
    assert_eq!(anything, CronDatePart::DayOfMonth.translate(anything));
}

#[test]
fn date_part_names() {
    assert_eq!("Minutes", CronDatePart::Minutes.to_string());
    assert_eq!("Hours", CronDatePart::Hours.to_string());
    assert_eq!("DayOfMonth", CronDatePart::DayOfMonth.to_string());
    assert_eq!("Month", CronDatePart::Month.to_string());
    assert_eq!("DayOfWeek", CronDatePart::DayOfWeek.to_string());
}

#[test]
fn translate_ignores_longer_names() {
    assert_eq!("janu", CronDatePart::Month.translate("janu"));
    assert_eq!("SUNDAY", CronDatePart::DayOfWeek.translate("SUNDAY"));
}

#[test]
fn moments_that_do_not_exist_are_refused() {
    assert!(CronDateTime::new(2021, 2, 29, 0, 0).is_none());
    assert!(CronDateTime::new(2020, 2, 29, 0, 0).is_some());
    assert!(CronDateTime::new(2021, 13, 1, 0, 0).is_none());
    assert!(CronDateTime::new(2021, 4, 31, 0, 0).is_none());
    assert!(CronDateTime::new(2021, 4, 30, 24, 0).is_none());
    assert!(CronDateTime::new(2021, 4, 30, 23, 60).is_none());
    assert!(CronDateTime::new(1900, 2, 29, 0, 0).is_none());
    assert!(CronDateTime::new(2000, 2, 29, 0, 0).is_some());
    assert!(CronDateTime::new(262143, 1, 1, 0, 0).is_none());
}

#[test]
fn weekday_comes_from_the_calendar() {
    assert_eq!(0, CronDateTime::new(2021, 4, 4, 0, 0).unwrap().weekday);
    assert_eq!(6, CronDateTime::new(2000, 1, 1, 0, 0).unwrap().weekday);
}
