use curds::whey::context::{
    WheyContextDefaultReturn, WheyContextInputComparison, WheyContextReturnGenerator,
    WheyContextSequence, WheyDefaultReturn, WheyExpectedCalls, WheyInputComparison,
    WheyReturnGenerator, WheySequence, WheySequenceStage, WheyTest, WheyTestContext,
};
use curds::whey::expectation::WheyMockExpectation;
use curds::whey::model::{WheyExpectation, WheyPath, WheyPathSegment, join_texts};
use curds::whey::names::{
    MockedTraitDefinition, WheyMockedType, default_generator_field,
    default_return_method, expect_calls_method, expected_calls_field, expected_input_field,
    expected_input_times_field, recorded_calls_field, returned_field, returned_times_field,
    store_expected_input_method, store_return_method, testing_struct_name,
};

fn path(segments: &[&str]) -> WheyPath {
    WheyPath {
        leading_colon: false,
        segments: segments.iter().map(|s| WheyPathSegment { ident: s.to_string(), arguments: String::new() }).collect(),
    }
}

#[test]
fn names_of_mock_items() {
    assert_eq!("TestingFoo", testing_struct_name("Foo"));
    assert_eq!("expect_calls_run", expect_calls_method("run"));
    assert_eq!("store_expected_input_run", store_expected_input_method("run"));
    assert_eq!("default_return_run", default_return_method("run"));
    assert_eq!("store_return_run", store_return_method("run"));
    assert_eq!("expected_calls_run", expected_calls_field("run"));
    assert_eq!("recorded_calls_run", recorded_calls_field("run"));
    assert_eq!("default_generator_run", default_generator_field("run"));
    assert_eq!("expected_input_run", expected_input_field("run"));
    assert_eq!("expected_input_times_run", expected_input_times_field("run"));
    assert_eq!("returned_run", returned_field("run"));
    assert_eq!("returned_times_run", returned_times_field("run"));
    assert_eq!("WheyCoreFoo_run_Expectation", WheyMockExpectation::expectation_name("run", "WheyCoreFoo"));
}

#[test]
fn renamed_paths_keep_their_prefix_segments() {
    let mut mocked = path(&["crate", "io", "FileSystem"]);
    mocked.leading_colon = true;
    mocked.segments[2].arguments = "<T>".to_owned();
    assert_eq!("::crate::io::FileSystem<T>", mocked.text());
    assert_eq!("crate::io::TestingFileSystem<T>", MockedTraitDefinition::generate_testing_name(&mocked).text());
    assert_eq!("crate::io::WheyCoreFileSystem<T>", MockedTraitDefinition::generate_core_name(&mocked).text());
    assert_eq!("crate::io::WheyFileSystem<T>", WheyMockedType::generate_whey_name(&mocked).text());
    assert_eq!("crate::io::WheyCoreFileSystem<T>", WheyMockedType::generate_core_name(&mocked).text());
    let definition = MockedTraitDefinition::new(path(&["Clock"]));
    assert_eq!("TestingClock", definition.whey_name.text());
    let mocked_type = WheyMockedType::new(path(&["Clock"]));
    assert_eq!("WheyClock", mocked_type.whey_name.text());
    assert_eq!("WheyCoreClock", mocked_type.core_name.text());
}

#[test]
fn context_attributes_expand_to_macro_calls() {
    let default_return = WheyContextDefaultReturn {
        expected_mock: path(&["Clock"]),
        method: "current".to_owned(),
        generator: WheyExpectation::Closure("|| 5".to_owned()),
    };
    assert_eq!("curds_core_macro::mock_default_return!(self ~ Clock ~ current, || 5);", default_return.quote());

    let input = WheyContextInputComparison {
        expected_mock: path(&["io", "FileSystem"]),
        method: "read".to_owned(),
        comparison: WheyExpectation::Delegate("compare".to_owned()),
        times: "2".to_owned(),
    };
    assert_eq!("curds_core_macro::mock_input!(self ~ io::FileSystem ~ read, compare, 2);", input.quote());

    let output = WheyContextReturnGenerator {
        expected_mock: path(&["Clock"]),
        method: "current".to_owned(),
        generator: WheyExpectation::Closure("|| 7".to_owned()),
        times: "1".to_owned(),
    };
    assert_eq!("curds_core_macro::mock_return!(self ~ Clock ~ current, || 7, 1);", output.quote());
}

fn stage() -> WheySequenceStage {
    WheySequenceStage {
        expected_mock: path(&["Clock"]),
        method: "current".to_owned(),
        input_comparison: Some(WheyExpectation::Delegate("check".to_owned())),
        return_generator: None,
    }
}

#[test]
fn sequence_stages_load_the_synchronizer() {
    let expected = "{ let synchronizer: std::rc::Rc<std::sync::RwLock<curds_core_abstraction::whey::WheySynchronizer>> = self.generate(); synchronizer.write().unwrap().load(std::any::TypeId::of::<WheyCoreClock>(), String::from(\"current\")); } curds_core_macro::mock_input!(self ~ Clock ~ current, check, 1);";
    assert_eq!(expected, stage().quote(None));
    let sequence = WheyContextSequence { stages: vec![stage(), stage()] };
    assert_eq!(format!("{} {}", expected, expected), sequence.quote());
    let named = WheySequence { context: "context".to_owned(), stages: vec![stage()] };
    assert_eq!(expected.replace("self", "context"), named.quote());
}

#[test]
fn macros_call_the_core_or_testing_struct() {
    let default_return = WheyDefaultReturn {
        context: "context".to_owned(),
        expected_mock: path(&["Clock"]),
        method: "current".to_owned(),
        generator: "|| 5".to_owned(),
    };
    assert_eq!("{ let core: std::rc::Rc<std::sync::RwLock<WheyCoreClock>> = context.generate(); core.write().unwrap().default_return_current(Box::new(|| 5)); }", default_return.quote());

    let output = WheyReturnGenerator {
        context: "context".to_owned(),
        expected_mock: path(&["Clock"]),
        method: "current".to_owned(),
        generator: "|| 5".to_owned(),
        times: "3".to_owned(),
    };
    assert_eq!("{ let core: std::rc::Rc<std::sync::RwLock<WheyCoreClock>> = context.generate(); core.write().unwrap().store_return_current(Box::new(|| 5), 3); }", output.quote());

    let calls = WheyExpectedCalls {
        context: "context".to_owned(),
        expected_mock: path(&["Clock"]),
        method: "current".to_owned(),
        times: "4".to_owned(),
    };
    assert_eq!("{ let core: std::rc::Rc<std::sync::RwLock<TestingClock>> = context.generate(); core.write().unwrap().expect_calls_current(4); }", calls.quote());

    let input = WheyInputComparison {
        context: None,
        expected_mock: path(&["Clock"]),
        method: "current".to_owned(),
        comparison: WheyExpectation::Closure("|x| x > 0".to_owned()),
        times: "1".to_owned(),
    };
    assert_eq!("{ let core: std::rc::Rc<std::sync::RwLock<TestingClock>> = self.generate(); core.write().unwrap().store_expected_input_current(Box::new(|x| x > 0), 1); }", input.quote());
}

#[test]
fn tests_construct_their_context_first() {
    let context = WheyTestContext { context: "TestContext".to_owned(), name: "context".to_owned() };
    let test = WheyTest {
        attributes: vec!["#[ignore]".to_owned()],
        visibility: "pub".to_owned(),
        signature: "fn runs()".to_owned(),
        statements: vec!["context.initialize();".to_owned(), "context.assert();".to_owned()],
    };
    assert_eq!("#[test] #[ignore] pub fn runs() { let mut context = TestContext::construct(); context.initialize(); context.assert(); }", test.quote(context));
}

#[test]
fn texts_join_with_separator() {
    assert_eq!("a, b, c", join_texts(&vec!["a".to_owned(), "b".to_owned(), "c".to_owned()], ", "));
    assert_eq!("", join_texts(&vec![], ", "));
}
