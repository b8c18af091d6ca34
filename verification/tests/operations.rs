use curds::cron::operations::{CronArgumentFactory, CurdsCronOperation, operation_args_are_valid, parse_operations};

fn strings(words: &[&str]) -> Vec<String> {
    words.iter().map(|w| w.to_string()).collect()
}

#[test]
fn program_name_is_dropped() {
    assert_eq!(strings(&["test", "* * * * *"]), CronArgumentFactory::arguments_after_program(strings(&["cron", "test", "* * * * *"])));
}

#[test]
fn operations_come_in_pairs() {
    let args = strings(&["process", "a.json", "generate", "b.json"]);
    assert!(operation_args_are_valid(&args));
    let operations = parse_operations(args);
    assert_eq!(2, operations.len());
    assert!(matches!(&operations[0], CurdsCronOperation::Process(v) if v == "a.json"));
    assert!(matches!(&operations[1], CurdsCronOperation::Generate(v) if v == "b.json"));
}

#[test]
fn operations_without_value_or_keyword_are_invalid() {
    assert!(!operation_args_are_valid(&strings(&["process"])));
    assert!(!operation_args_are_valid(&strings(&["remove", "x"])));
    assert!(operation_args_are_valid(&strings(&[])));
}
