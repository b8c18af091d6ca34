use curds::cron::datepart::CronDatePart;
use curds::cron::parsing::error::CronParsingError;
use curds::cron::parsing::handlers::CronValueParsingHandler;
use curds::cron::parsing::link::{CronValueParserLink, ValueHandler};
use std::sync::Mutex;
use std::sync::atomic::{AtomicUsize, Ordering};
use curds::cron::parsing::parser::{CronValueParserFactory, CurdsCronParser, CurdsCronValueParserFactory};
use curds::cron::value::CronValue;

#[test]
fn tail_sets_no_successor() {
    let test_object = CronValueParserLink::tail(ValueHandler::Single);

    if let Some(_successor) = test_object.successor {
        panic!("Successor should be None with tail()");
    }
}

#[test]
fn prepend_makes_self_successor() {
    let tail = CronValueParserLink::tail(ValueHandler::Single);
    let test_object = tail.prepend(ValueHandler::Wildcard);

    if let None = test_object.successor {
        panic!("Successor should be Some() with prepend()");
    }
}

#[test]
fn parse_returns_current_value_if_some() {
    let test_object = CronValueParserLink::tail(ValueHandler::Wildcard);
    assert_eq!(Ok(CronValue::Any), test_object.parse(&CronDatePart::Minutes, "*"));
}

#[test]
fn parse_chains_to_successor() {
    let test_object = CronValueParserLink::tail(ValueHandler::Wildcard).prepend(ValueHandler::Range);
    assert_eq!(Ok(CronValue::Any), test_object.parse(&CronDatePart::Minutes, "*"));
}

#[test]
fn parse_returns_error_if_no_succesor() {
    let test_object = CronValueParserLink::tail(ValueHandler::Wildcard);
    let error = test_object.parse(&CronDatePart::Minutes, "TestValue").expect_err("Expected parsing to error but returned");
    assert_eq!(CronParsingError::InvalidValue { date_part: CronDatePart::Minutes, value: "TestValue".to_owned() }, error);
}

static CREATED: AtomicUsize = AtomicUsize::new(0);
static PARSED: Mutex<Vec<String>> = Mutex::new(Vec::new());

struct NamesHandler;

impl CronValueParsingHandler for NamesHandler {
    fn parse(&self, date_part: &CronDatePart, value: &str) -> Option<Result<CronValue, CronParsingError>> {
        assert_eq!(CronDatePart::DayOfWeek, *date_part);
        PARSED.lock().unwrap().push(value.to_owned());
        match value {
            "One" | "Two" | "Three" => Some(Ok(CronValue::Any)),
            _ => Some(Err(CronParsingError::InvalidValue { date_part: *date_part, value: value.to_owned() })),
        }
    }
}

struct NamesFactory;

impl CronValueParserFactory for NamesFactory {
    fn create(date_part: &CronDatePart) -> CronValueParserLink {
        assert_eq!(CronDatePart::DayOfWeek, *date_part);
        CREATED.fetch_add(1, Ordering::SeqCst);
        CronValueParserLink::tail(ValueHandler::Custom(Box::new(NamesHandler)))
    }
}

#[test]
fn parse_field_parses_with_factory_parser() {
    let field = CurdsCronParser::parse_field::<NamesFactory>(CronDatePart::DayOfWeek, "One,Two,Three").unwrap();
    assert_eq!(CronDatePart::DayOfWeek, field.date_part);
    assert_eq!(vec![CronValue::Any, CronValue::Any, CronValue::Any], field.values);
    assert_eq!(1, CREATED.load(Ordering::SeqCst));
    assert_eq!(vec!["One".to_owned(), "Two".to_owned(), "Three".to_owned()], *PARSED.lock().unwrap());
}

#[test]
fn parse_field_parses_with_the_library_factory() -> Result<(), CronParsingError> {
    let field = CurdsCronParser::parse_field::<CurdsCronValueParserFactory>(CronDatePart::DayOfWeek, "MON,2-4,*")?;
    assert_eq!(CronDatePart::DayOfWeek, field.date_part);
    assert_eq!(vec![CronValue::Single(1), CronValue::Range { min: 2, max: 4 }, CronValue::Any], field.values);
    Ok(())
}

#[test]
fn custom_handlers_answer_before_their_successors() {
    let chain = CronValueParserLink::tail(ValueHandler::Wildcard).prepend(ValueHandler::Custom(Box::new(NamesHandler)));
    assert_eq!(Err(CronParsingError::InvalidValue { date_part: CronDatePart::DayOfWeek, value: "*".to_owned() }), chain.parse(&CronDatePart::DayOfWeek, "*"));
    assert_eq!(Ok(CronValue::Any), chain.parse(&CronDatePart::DayOfWeek, "Two"));
}

#[test]
fn factory_chains_per_date_part() {
    let day_of_month = CurdsCronValueParserFactory::create(&CronDatePart::DayOfMonth);
    assert!(matches!(day_of_month.current, ValueHandler::LastDayOfMonth));
    assert_eq!(Ok(CronValue::NearestWeekday { day_of_month: 3 }), day_of_month.parse(&CronDatePart::DayOfMonth, "3W"));
    let day_of_week = CurdsCronValueParserFactory::create(&CronDatePart::DayOfWeek);
    assert!(matches!(day_of_week.current, ValueHandler::LastDayOfWeek));
    let minutes = CurdsCronValueParserFactory::create(&CronDatePart::Minutes);
    assert!(matches!(minutes.current, ValueHandler::Range));
    assert!(minutes.parse(&CronDatePart::Minutes, "3W").is_err());
}
