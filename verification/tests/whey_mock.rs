use curds::whey::attributes::{WheyContext, WheyContextAttribute, WheyContextItem, WheyMockedTrait};
use curds::whey::collection::MockedCollection;
use curds::whey::context::WheyContextDefaultReturn;
use curds::whey::expectation::WheyMockExpectation;
use curds::whey::fields::{
    WheyFnArg, WheyMethod, field_input_types, field_return_type, quote_field_initializers,
    quote_fields,
};
use curds::whey::impls::{
    quote_assert_expectations, quote_impl, quote_reset_expectations, quote_setup_expectations,
};
use curds::whey::mock::{WheyGenericParam, WheyMock, WheyTrait, WheyTraitItem};
use curds::whey::mock_core::WheyMockCore;
use curds::whey::model::{WheyExpectation, WheyPath, WheyPathSegment};
use curds::whey::names::MockedTraitDefinition;
use curds::whey::types::{WheyBound, WheyGenericArgument, WheyPathArguments, WheyType, WheyTypeSegment};

fn named(ident: &str) -> WheyType {
    WheyType::Path {
        leading_colon: false,
        segments: vec![WheyTypeSegment { ident: ident.to_owned(), arguments: WheyPathArguments::Plain }],
    }
}

fn generic(ident: &str, args: Vec<WheyType>) -> WheyType {
    WheyType::Path {
        leading_colon: false,
        segments: vec![WheyTypeSegment {
            ident: ident.to_owned(),
            arguments: WheyPathArguments::AngleBracketed {
                colon2: false,
                args: args.into_iter().map(WheyGenericArgument::Type).collect(),
            },
        }],
    }
}

fn reference(lifetime: Option<&str>, mutable: bool, elem: WheyType) -> WheyType {
    WheyType::Reference { lifetime: lifetime.map(|l| l.to_owned()), mutable, elem: Box::new(elem) }
}

fn typed(pattern: &str, ty: WheyType) -> WheyFnArg {
    WheyFnArg::Typed { pattern: pattern.to_owned(), ty }
}

fn read_method() -> WheyMethod {
    WheyMethod {
        signature: "fn read(&self, path: &str, count: u32) -> String".to_owned(),
        ident: "read".to_owned(),
        inputs: vec![
            WheyFnArg::Receiver { reference: true, mutable: false },
            typed("path", reference(None, false, named("str"))),
            typed("count", named("u32")),
        ],
        output: Some(named("String")),
    }
}

fn ping_method() -> WheyMethod {
    WheyMethod {
        signature: "fn ping(&self)".to_owned(),
        ident: "ping".to_owned(),
        inputs: vec![WheyFnArg::Receiver { reference: true, mutable: false }],
        output: None,
    }
}

fn definition(ident: &str) -> MockedTraitDefinition {
    MockedTraitDefinition::new(WheyPath {
        leading_colon: false,
        segments: vec![WheyPathSegment { ident: ident.to_owned(), arguments: String::new() }],
    })
}

#[test]
fn return_types_keep_only_declared_lifetimes() {
    let lifetimes = vec!["a".to_owned()];
    assert_eq!("&'a str", field_return_type(&reference(Some("a"), true, named("str")), &lifetimes));
    assert_eq!("&str", field_return_type(&reference(Some("b"), false, named("str")), &lifetimes));
    let trait_object = WheyType::TraitObject {
        dyn_token: true,
        bounds: vec![
            WheyBound::Other("Fn()".to_owned()),
            WheyBound::Lifetime("a".to_owned()),
            WheyBound::Lifetime("b".to_owned()),
        ],
    };
    let nested = generic(
        "Vec",
        vec![reference(Some("b"), true, named("u8")), generic("Box", vec![trait_object])],
    );
    assert_eq!("Vec<&u8, Box<dyn Fn() + 'a>>", field_return_type(&nested, &lifetimes));
    let top_level = WheyType::TraitObject {
        dyn_token: true,
        bounds: vec![WheyBound::Other("Tr".to_owned()), WheyBound::Lifetime("b".to_owned())],
    };
    assert_eq!("dyn Tr + 'b", field_return_type(&top_level, &lifetimes));
    assert_eq!("[u8; 4]", field_return_type(&WheyType::Other("[u8; 4]".to_owned()), &lifetimes));
}

#[test]
fn input_types_are_taken_by_reference() {
    let inputs = vec![reference(Some("a"), true, named("str")), named("u32")];
    assert_eq!(vec!["&str".to_owned(), "&u32".to_owned()], field_input_types(&inputs));
}

#[test]
fn fields_follow_inputs_and_output() {
    let fields = quote_fields(&read_method(), &Vec::new());
    assert_eq!(
        vec![
            "expected_calls_read: std::sync::Mutex<std::option::Option<u32>>",
            "recorded_calls_read: std::sync::Mutex<u32>",
            "expected_input_times_read: std::sync::Mutex<std::vec::Vec<u32>>",
            "expected_input_read: std::sync::Mutex<std::vec::Vec<std::boxed::Box<dyn Fn(&str, &u32) -> bool + Send + Sync>>>",
            "default_generator_read: std::sync::Mutex<std::option::Option<std::boxed::Box<dyn Fn(&str, &u32) -> String + Send + Sync>>>",
            "returned_times_read: std::sync::Mutex<std::vec::Vec<u32>>",
            "returned_read: std::sync::Mutex<std::vec::Vec<std::boxed::Box<dyn Fn(&str, &u32) -> String + Send + Sync>>>",
        ],
        fields
    );
    assert_eq!(
        vec![
            "expected_calls_ping: std::sync::Mutex<std::option::Option<u32>>",
            "recorded_calls_ping: std::sync::Mutex<u32>",
        ],
        quote_fields(&ping_method(), &Vec::new())
    );
    assert_eq!(
        vec![
            "expected_calls_read: std::default::Default::default()",
            "recorded_calls_read: std::default::Default::default()",
            "expected_input_times_read: std::default::Default::default()",
            "expected_input_read: std::default::Default::default()",
            "default_generator_read: std::default::Default::default()",
            "returned_times_read: std::default::Default::default()",
            "returned_read: std::default::Default::default()",
        ],
        quote_field_initializers(&read_method())
    );
    assert_eq!(2, quote_field_initializers(&ping_method()).len());
}

#[test]
fn mocked_method_records_compares_and_returns() {
    assert_eq!(
        [
            "fn read(&self, path: &str, count: u32) -> String { *self.recorded_calls_read.lock().unwrap() += 1; ",
            "let length = self.expected_input_times_read.lock().unwrap().len(); for i in 0..length { ",
            "if self.expected_input_times_read.lock().unwrap()[i] > 0 { self.expected_input_times_read.lock().unwrap()[i] -= 1; ",
            "if !(self.expected_input_read.lock().unwrap()[i])(path, &count) { ",
            "panic!(\"the expected inputs for TestingStore::read were not supplied\"); } break; } } ",
            "let length = self.returned_times_read.lock().unwrap().len(); for i in 0..length { ",
            "if self.returned_times_read.lock().unwrap()[i] > 0 { self.returned_times_read.lock().unwrap()[i] -= 1; ",
            "return (self.returned_read.lock().unwrap()[i])(path, &count) } } ",
            "match &*self.default_generator_read.lock().unwrap() { Some(generator) => return generator(path, &count), ",
            "_ => panic!(\"a return is necessary for TestingStore::read but none have been supplied\"), } }"
        ].concat(),
        quote_impl("TestingStore", &read_method())
    );
    assert_eq!(
        "fn ping(&self) { *self.recorded_calls_ping.lock().unwrap() += 1; }",
        quote_impl("TestingPinger", &ping_method())
    );
}

#[test]
fn setup_assert_and_reset_follow_inputs_and_output() {
    assert_eq!(
        vec![
            "pub fn expect_calls_read(&self, expected: u32) { *self.expected_calls_read.lock().unwrap() = Some(expected); }".to_owned(),
            "pub fn store_expected_input_read<TComparer: 'static + Send + Sync + Fn(&str, &u32) -> bool>(&self, comparison: TComparer, times: u32) { self.expected_input_times_read.lock().unwrap().push(times); self.expected_input_read.lock().unwrap().push(std::boxed::Box::new(comparison)); }".to_owned(),
            "pub fn default_return_read<TGenerator: 'static + Send + Sync + Fn(&str, &u32) -> String>(&self, generator: TGenerator) { *self.default_generator_read.lock().unwrap() = Some(std::boxed::Box::new(generator)); }".to_owned(),
            "pub fn store_return_read<TGenerator: 'static + Send + Sync + Fn(&str, &u32) -> String>(&self, generator: TGenerator, times: u32) { self.returned_times_read.lock().unwrap().push(times); self.returned_read.lock().unwrap().push(std::boxed::Box::new(generator)); }".to_owned(),
        ],
        quote_setup_expectations(&read_method(), &Vec::new())
    );
    assert_eq!(
        [
            "if self.expected_calls_read.lock().unwrap().is_some() && self.expected_calls_read.lock().unwrap().unwrap() != *self.recorded_calls_read.lock().unwrap() { ",
            "panic!(\"expected {} calls to TestingStore::read but recorded {} instead\", self.expected_calls_read.lock().unwrap().unwrap(), self.recorded_calls_read.lock().unwrap()); } ",
            "if self.expected_input_times_read.lock().unwrap().iter().any(|comparer| *comparer != 0) { panic!(\"not all stored input comparisons for TestingStore::read have been consumed\"); } ",
            "if self.returned_times_read.lock().unwrap().iter().any(|generator| *generator != 0) { panic!(\"not all stored returns for TestingStore::read have been consumed\"); } "
        ].concat(),
        quote_assert_expectations("TestingStore", &read_method())
    );
    assert_eq!(
        [
            "*self.expected_calls_read.lock().unwrap() = None; *self.recorded_calls_read.lock().unwrap() = 0; ",
            "self.expected_input_times_read.lock().unwrap().clear(); self.expected_input_read.lock().unwrap().clear(); ",
            "self.returned_times_read.lock().unwrap().clear(); self.returned_read.lock().unwrap().clear(); "
        ].concat(),
        quote_reset_expectations(&read_method())
    );
    assert_eq!(
        "*self.expected_calls_ping.lock().unwrap() = None; *self.recorded_calls_ping.lock().unwrap() = 0; ",
        quote_reset_expectations(&ping_method())
    );
}

#[test]
fn mock_repeats_the_trait_and_adds_its_testing_struct() {
    let mocked_trait = WheyTrait {
        text: "pub trait Pinger { fn ping(&self); }".to_owned(),
        vis: "pub".to_owned(),
        ident: "Pinger".to_owned(),
        generic_params: Vec::new(),
        generics: String::new(),
        impl_generics: String::new(),
        type_generics: String::new(),
        where_clause: String::new(),
        items: vec![
            WheyTraitItem::Other("type Output;".to_owned()),
            WheyTraitItem::Method(ping_method()),
        ],
    };
    let expected = [
        "pub trait Pinger { fn ping(&self); } ",
        "pub struct TestingPinger  { expected_calls_ping: std::sync::Mutex<std::option::Option<u32>>, recorded_calls_ping: std::sync::Mutex<u32> }",
        " impl  TestingPinger   { pub fn new() -> Self { Self { expected_calls_ping: std::default::Default::default(), recorded_calls_ping: std::default::Default::default() } } ",
        "pub fn expect_calls_ping(&self, expected: u32) { *self.expected_calls_ping.lock().unwrap() = Some(expected); }",
        " pub fn assert(&self) { if self.expected_calls_ping.lock().unwrap().is_some() && self.expected_calls_ping.lock().unwrap().unwrap() != *self.recorded_calls_ping.lock().unwrap() { ",
        "panic!(\"expected {} calls to TestingPinger::ping but recorded {} instead\", self.expected_calls_ping.lock().unwrap().unwrap(), self.recorded_calls_ping.lock().unwrap()); } ",
        "self.reset(); } pub fn reset(&self) { *self.expected_calls_ping.lock().unwrap() = None; *self.recorded_calls_ping.lock().unwrap() = 0; } }",
        " impl  Drop for TestingPinger   { fn drop(&mut self) { if !std::thread::panicking() { self.assert(); } } }",
        " impl  Pinger  for TestingPinger   { fn ping(&self) { *self.recorded_calls_ping.lock().unwrap() += 1; } }"
    ].concat();
    assert_eq!(expected, WheyMock { mocked_trait }.quote());
}

#[test]
fn trait_lifetimes_are_its_lifetime_parameters() {
    let mocked_trait = WheyTrait {
        text: String::new(),
        vis: String::new(),
        ident: "Reader".to_owned(),
        generic_params: vec![
            WheyGenericParam::Lifetime("a".to_owned()),
            WheyGenericParam::Other("T".to_owned()),
            WheyGenericParam::Lifetime("b".to_owned()),
        ],
        generics: "<'a, T, 'b>".to_owned(),
        impl_generics: "<'a, T, 'b>".to_owned(),
        type_generics: "<'a, T, 'b>".to_owned(),
        where_clause: String::new(),
        items: Vec::new(),
    };
    assert_eq!(vec!["a".to_owned(), "b".to_owned()], WheyMock::trait_lifetimes(&mocked_trait));
    assert!(WheyMock::filter_items(&WheyTraitItem::Other("const N: u8;".to_owned())).is_none());
    assert!(WheyMock::filter_items(&WheyTraitItem::Method(ping_method())).is_some());
}

#[test]
fn expectation_struct_compares_inputs_and_hands_out_its_return() {
    let get = WheyMethod {
        signature: "fn get(&mut self, key: &mut String, n: u32) -> &Item".to_owned(),
        ident: "get".to_owned(),
        inputs: vec![
            WheyFnArg::Receiver { reference: true, mutable: true },
            typed("key", reference(None, true, named("String"))),
            typed("n", named("u32")),
        ],
        output: Some(reference(None, false, named("Item"))),
    };
    assert_eq!(Some(vec!["String".to_owned(), "u32".to_owned()]), WheyMockExpectation::parse_expectation_input_types(&get));
    assert_eq!(Some(vec!["&String".to_owned(), "u32".to_owned()]), WheyMockExpectation::parse_consume_input_types(&get));
    assert_eq!(Some("Item".to_owned()), WheyMockExpectation::parse_expectation_return_type(&get));
    assert_eq!(None, WheyMockExpectation::parse_expectation_input_types(&ping_method()));
    assert_eq!(None, WheyMockExpectation::parse_expectation_return_type(&ping_method()));
    let expected = [
        "#[allow(non_camel_case_types)] struct WheyCoreStore_get_Expectation { times: std::cell::Cell<u32>, input_comparison: (String, u32), expected_return: Item } ",
        "impl WheyCoreStore_get_Expectation { pub fn is_consumed(&self) -> bool { self.times.get() == 0 } ",
        "pub fn consume(&mut self, expected: (&String, u32)) -> &Item { let comparison = (&self.input_comparison.0, self.input_comparison.1); ",
        "assert_eq!(comparison, expected); self.times.set(self.times.get() - 1); &self.expected_return } }"
    ].concat();
    assert_eq!(expected, WheyMockExpectation::quote_struct(&get, "WheyCoreStore"));
    let single = WheyMethod {
        signature: "fn size(&self, n: u32) -> u64".to_owned(),
        ident: "size".to_owned(),
        inputs: vec![WheyFnArg::Receiver { reference: true, mutable: false }, typed("n", named("u32"))],
        output: Some(named("u64")),
    };
    let expected = [
        "#[allow(non_camel_case_types)] struct Core_size_Expectation { times: std::cell::Cell<u32>, input_comparison: (u32), expected_return: u64 } ",
        "impl Core_size_Expectation { pub fn is_consumed(&self) -> bool { self.times.get() == 0 } ",
        "pub fn consume(&self, expected: (u32)) -> u64 { let comparison = (self.input_comparison); ",
        "assert_eq!(comparison, expected); self.times.set(self.times.get() - 1); self.expected_return.clone() } }"
    ].concat();
    assert_eq!(expected, WheyMockExpectation::quote_struct(&single, "Core"));
}

#[test]
fn core_methods_store_and_answer_calls() {
    let mock = WheyMock {
        mocked_trait: WheyTrait {
            text: String::new(),
            vis: String::new(),
            ident: "Store".to_owned(),
            generic_params: Vec::new(),
            generics: String::new(),
            impl_generics: String::new(),
            type_generics: String::new(),
            where_clause: String::new(),
            items: Vec::new(),
        },
    };
    let core = WheyMockCore::new(&mock);
    let read = read_method();
    let returned = named("String");
    assert_eq!(
        [
            "pub fn consume_expected_input_read(&mut self, path: &str, count: &u32) { let length = self.expected_input_times_read.len(); ",
            "for i in 0..length { if self.expected_input_times_read[i] > 0 { self.expected_input_times_read[i] -= 1; ",
            "if !(self.expected_input_read[i])(path, count) { panic!(\"the expected inputs for Store::read were not supplied\"); } break; } } }"
        ].concat(),
        core.quote_consume_expected_input(&read)
    );
    assert_eq!(
        "pub fn default_return_read(&mut self, generator: std::boxed::Box<dyn Fn(&str, u32) -> String>) { self.default_generator_read = Some(generator); }",
        core.quote_default_return(&read, &returned)
    );
    assert_eq!(
        "pub fn store_return_read(&mut self, generator: std::boxed::Box<dyn Fn(&str, u32) -> String>, times: u32) { self.returned_times_read.push(times); self.returned_read.push(generator); }",
        core.quote_store_return(&read, &returned)
    );
    assert_eq!(
        [
            "pub fn generate_return_read(&mut self, path: &str, count: u32) -> String { let length = self.returned_times_read.len(); ",
            "for i in 0..length { if self.returned_times_read[i] > 0 { self.returned_times_read[i] -= 1; return (self.returned_read[i])(path, count) } } ",
            "match &self.default_generator_read { Some(generator) => return generator(path, count), ",
            "_ => panic!(\"a return is necessary for Store::read but none have been supplied\"), } }"
        ].concat(),
        core.quote_generate_return(&read, &returned)
    );
}

#[test]
fn context_takes_its_attributes_off_in_order() {
    let item = WheyContextItem {
        attrs: vec![
            WheyContextAttribute::Other("#[derive(Default)]".to_owned()),
            WheyContextAttribute::MocksSingleton(definition("Clock")),
            WheyContextAttribute::MockDefaultReturn(WheyContextDefaultReturn {
                expected_mock: definition("Clock").mocked_trait,
                method: "now".to_owned(),
                generator: WheyExpectation::Closure("|| 5".to_owned()),
            }),
            WheyContextAttribute::Mocks(definition("Store")),
            WheyContextAttribute::Other("#[allow(dead_code)]".to_owned()),
        ],
        text: "struct Context {}".to_owned(),
    };
    let context = WheyContext::parse(item);
    assert_eq!(2, context.mocked_traits.len());
    match &context.mocked_traits[0] {
        WheyMockedTrait::Singleton(definition) => assert_eq!("TestingClock", definition.whey_name.text()),
        WheyMockedTrait::Transient(_) => panic!("the first mock is a singleton"),
    }
    match &context.mocked_traits[1] {
        WheyMockedTrait::Transient(definition) => assert_eq!("Store", definition.mocked_trait.text()),
        WheyMockedTrait::Singleton(_) => panic!("the second mock is transient"),
    }
    assert_eq!(1, context.default_returns.len());
    assert_eq!("now", context.default_returns[0].method);
    assert_eq!(0, context.return_generators.len());
    assert_eq!(0, context.input_comparisons.len());
    assert_eq!(0, context.sequences.len());
    assert_eq!(2, context.item.attrs.len());
    assert!(matches!(&context.item.attrs[0], WheyContextAttribute::Other(text) if text == "#[derive(Default)]"));
    assert!(matches!(&context.item.attrs[1], WheyContextAttribute::Other(text) if text == "#[allow(dead_code)]"));
    assert_eq!("struct Context {}", context.item.text);
}

#[test]
fn collection_holds_each_trait_once_with_a_fresh_identifier() {
    assert_eq!("whey_mock_core_AFF01B", MockedCollection::identifier_from_bytes([0x0A, 0xFF, 0x00, 0x1B]));
    let generated = MockedCollection::generate_identifier();
    assert!(generated.starts_with("whey_mock_core_"));
    assert!(generated.len() >= 19 && generated.len() <= 23);
    assert!(generated["whey_mock_core_".len()..].chars().all(|c| c.is_ascii_digit() || ('A'..='F').contains(&c)));

    let mut collection = MockedCollection::new();
    assert!(collection.add(WheyMockedTrait::Transient(definition("Clock")), "whey_mock_core_1".to_owned()).is_none());
    assert!(collection.contains(&"Clock".to_owned()));
    assert!(collection.is_consumed(&"whey_mock_core_1".to_owned()));
    assert!(collection.add(WheyMockedTrait::Singleton(definition("Clock")), "whey_mock_core_2".to_owned()).is_none());
    assert!(!collection.is_consumed(&"whey_mock_core_2".to_owned()));
    match collection.add(WheyMockedTrait::Singleton(definition("Store")), "whey_mock_core_1".to_owned()) {
        Some(WheyMockedTrait::Singleton(rejected)) => assert_eq!("Store", rejected.mocked_trait.text()),
        _ => panic!("an identifier given out before is refused"),
    }
    assert!(!collection.contains(&"Store".to_owned()));
    assert!(collection.add(WheyMockedTrait::Singleton(definition("Store")), "whey_mock_core_2".to_owned()).is_none());
    assert!(collection.contains(&"Store".to_owned()));
    assert!(collection.is_consumed(&"whey_mock_core_2".to_owned()));
    assert!(!collection.contains(&"Other".to_owned()));
}
