use chrono::{DateTime, Datelike, Timelike, Utc};
use curds::cron::datetime::CronDateTime;
use curds::cron::expression::CronExpression;

fn at(text: &str) -> CronDateTime {
    let moment = text.parse::<DateTime<Utc>>().unwrap();
    CronDateTime::new(moment.year(), moment.month(), moment.day(), moment.hour(), moment.minute()).unwrap()
}

fn now() -> CronDateTime {
    let moment = Utc::now();
    CronDateTime::new(moment.year(), moment.month(), moment.day(), moment.hour(), moment.minute()).unwrap()
}

fn check(expression: &str, cases: &[(&str, bool)]) {
    let test_object = expression.parse::<CronExpression>().unwrap();
    for (date, expected) in cases {
        assert_eq!(*expected, test_object.is_match(&at(date)), "Expected {:?} to fire {:?} for {:?}", expression, expected, date);
    }
}

#[test]
fn parses_all_wildcard_expression() {
    let test_object = "* * * * *".parse::<CronExpression>().unwrap();
    assert_eq!(true, test_object.is_match(&now()));
}

#[test]
fn parses_specific_time() {
    check("1 2 3 4 5", &[
        ("2021-04-03T02:01:00Z", false),
        ("2020-04-03T02:01:00Z", true),
        ("2019-04-03T02:01:00Z", false),
    ]);
}

#[test]
fn parses_steps() {
    check("*/3 */2 */5 */2 */2", &[
        ("2021-03-11T02:13:00Z", false),
        ("2021-03-11T02:12:00Z", true),
        ("2021-03-10T02:12:00Z", false),
    ]);
}

#[test]
fn parses_ranges() {
    check("2-10 18-20 5-8 MAR-JUN SUN-WED", &[
        ("2021-02-08T18:07:00Z", false),
        ("2021-03-08T18:07:00Z", true),
        ("2021-04-08T18:07:00Z", false),
    ]);
}

#[test]
fn parses_last_day_of_month() {
    check("* * L FEB *", &[
        ("2020-02-29T00:00:00Z", true),
        ("2021-02-28T00:00:00Z", true),
        ("2020-02-28T00:00:00Z", false),
    ]);
}

#[test]
fn parses_last_day_of_week() {
    check("* * * * SUNL", &[
        ("2021-04-18T00:00:00Z", false),
        ("2021-04-25T00:00:00Z", true),
    ]);
}

#[test]
fn parses_nth_day_of_week() {
    check("* * * * MON#2", &[
        ("2021-04-05T00:00:00Z", false),
        ("2021-04-12T00:00:00Z", true),
        ("2021-04-19T00:00:00Z", false),
    ]);
}

#[test]
fn parses_nearest_weekday() {
    check("* * 18W * *", &[
        ("2021-04-18T00:00:00Z", false),
        ("2021-04-19T00:00:00Z", true),
    ]);
}

#[test]
fn documented_wildcard_example() {
    let anytime = "* * * * *".parse::<CronExpression>().unwrap();
    assert_eq!(true, anytime.is_match(&now()));
}

#[test]
fn documented_single_values_example() {
    check("0 0 1 1 *", &[("2021-01-01T00:00:00Z", true), ("2021-01-01T00:01:00Z", false)]);
}

#[test]
fn documented_range_values_example() {
    check("15-45 6-18 10-20 3-9 2-4", &[("2021-04-13T07:24:00Z", true), ("2021-04-13T18:46:00Z", false)]);
}

#[test]
fn documented_step_values_example() {
    check("*/2 */2 */2 */2 *", &[("2021-01-05T06:44:00Z", true), ("2021-01-05T06:43:00Z", false)]);
}

#[test]
fn documented_nearest_weekday_example() {
    check("* * 10W Aug *", &[("2019-08-10T00:00:00Z", false), ("2019-08-09T00:00:00Z", true)]);
}

#[test]
fn documented_last_day_of_month_example() {
    check("* * L,L-1 * *", &[
        ("2021-04-28T00:00:00Z", false),
        ("2021-04-29T00:00:00Z", true),
        ("2021-04-30T00:00:00Z", true),
    ]);
}

#[test]
fn documented_nth_day_of_week_example() {
    check("* * * jun 1#2", &[("2021-06-07T12:00:00Z", false), ("2021-06-14T12:00:00Z", true)]);
}

#[test]
fn documented_last_day_of_week_example() {
    check("* * * * FriL", &[("2021-01-22T00:00:00Z", false), ("2021-01-29T00:00:00Z", true)]);
}

#[test]
fn documented_is_match_example() {
    check("25 * * * *", &[("2021-04-01T00:00:00Z", false), ("2021-04-01T00:25:00Z", true)]);
}

#[test]
fn last_day_of_february_follows_the_gregorian_calendar() {
    check("* * L FEB *", &[
        ("2100-02-28T00:00:00Z", true),
        ("2100-02-27T00:00:00Z", false),
        ("1900-02-28T00:00:00Z", true),
        ("2000-02-29T00:00:00Z", true),
        ("2000-02-28T00:00:00Z", false),
        ("2020-02-29T00:00:00Z", true),
    ]);
    check("* * L-30 FEB *", &[("2100-02-01T00:00:00Z", false), ("2000-02-01T00:00:00Z", false)]);
}
