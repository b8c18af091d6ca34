use chrono::{Datelike, Local, Timelike};
use curds::cron::config::{CronConfig, DEFAULT_CONFIG, JobConfig, config_path};
use curds::cron::datetime::CronDateTime;
use curds::cron::expression::CronExpression;
use curds::cron::job::{CronJob, JobParameters};
use curds::cron::parsing::error::CronParsingError;
use curds::cron::scheduler::CronScheduler;
use std::str::FromStr;

fn local_now() -> CronDateTime {
    let moment = Local::now();
    CronDateTime::new(moment.year(), moment.month(), moment.day(), moment.hour(), moment.minute()).unwrap()
}

#[test]
fn absorb_is_expected() {
    let mut sample = CronConfig::sample();

    sample.absorb(CronConfig::sample());

    assert_eq!(2, sample.jobs.len());
}

fn responsive() -> CronExpression {
    FromStr::from_str("* * * * *").unwrap()
}

fn unresponsive() -> CronExpression {
    FromStr::from_str("0 0 1 1 0").unwrap()
}

#[test]
fn only_unresponsive_is_unresponsive() {
    let test = CronJob::new("Testing".to_owned(), vec![unresponsive()], JobParameters::sample());

    assert_eq!(false, test.is_responsive(&local_now()));
}

#[test]
fn any_responsive_is_responsive() {
    let test = CronJob::new("Testing".to_owned(), vec![responsive(), unresponsive()], JobParameters::sample());

    assert_eq!(true, test.is_responsive(&local_now()));
}

#[test]
fn sample_job_is_expected() {
    let sample = JobConfig::sample();
    assert_eq!("Testing Job", sample.name);
    assert_eq!(vec!["* * * * *".to_owned()], sample.expressions);
    assert_eq!("sh", sample.job.process);
    assert_eq!(Some(vec!["-c".to_owned(), "echo hello world!".to_owned()]), sample.job.arguments);
    assert_eq!(Some(50), sample.job.timeout_seconds);
}

#[test]
fn new_config_has_no_jobs() {
    assert_eq!(0, CronConfig::new().jobs.len());
}

#[test]
fn config_builds_jobs() {
    let jobs = CronConfig::sample().to_cron_jobs().unwrap();
    assert_eq!(1, jobs.len());
    assert_eq!("Testing Job", jobs[0].name);
    assert_eq!(true, jobs[0].is_responsive(&local_now()));
}

#[test]
fn config_with_a_bad_expression_fails() {
    let mut config = CronConfig::sample();
    config.jobs[0].expressions.push("* * *".to_owned());
    let error = config.to_cron_jobs().unwrap_err();
    assert_eq!(CronParsingError::FieldCount { expression: "* * *".to_owned(), parts: 3 }, error);
}

#[test]
fn default_path_is_used_when_none_is_given() {
    assert_eq!(DEFAULT_CONFIG, config_path(&None));
    assert_eq!("config.json", config_path(&None));
    assert_eq!("TestPath", config_path(&Some("TestPath".to_owned())));
}

#[test]
fn parameters_clone_keeps_everything() {
    let parameters = JobParameters::sample();
    let copy = parameters.clone();
    assert_eq!(parameters.process, copy.process);
    assert_eq!(parameters.arguments, copy.arguments);
    assert_eq!(parameters.timeout_seconds, copy.timeout_seconds);
}

#[test]
fn scheduler_starts_responsive_jobs_once_per_minute() {
    let jobs = vec![
        CronJob::new("always".to_owned(), vec![responsive()], JobParameters::sample()),
        CronJob::new("never".to_owned(), vec![unresponsive()], JobParameters::sample()),
        CronJob::new("also".to_owned(), vec![unresponsive(), responsive()], JobParameters::sample()),
    ];
    let mut scheduler = CronScheduler::new();
    let first = CronDateTime::new(2021, 4, 5, 10, 30).unwrap();
    let same_minute = CronDateTime::new(2021, 4, 5, 10, 30).unwrap();
    let next = CronDateTime::new(2021, 4, 5, 10, 31).unwrap();

    assert_eq!(vec![0, 2], scheduler.tick(&jobs, &first));
    assert_eq!(Some(30), scheduler.last_minute);
    assert_eq!(Vec::<usize>::new(), scheduler.tick(&jobs, &same_minute));
    assert_eq!(vec![0, 2], scheduler.tick(&jobs, &next));
}
