//! The methods of a testing struct: the mocked methods, which record their
//! calls, check their inputs and generate their returns, and the methods that
//! set up, assert and reset what a test expects.
use vstd::prelude::*;
use super::fields::{
    WheyMethod, field_return_type, has_inputs, input_name_texts, input_names_string,
    input_types_string, input_types_text, return_type_text, takes_arguments,
};
use super::model::{joined, string_texts};
use super::names::{
    default_generator_field, default_return_method, expect_calls_method, expected_calls_field,
    expected_input_field, expected_input_times_field, recorded_calls_field, returned_field,
    returned_times_field, store_expected_input_method, store_return_method,
};

verus! {

/// The inputs of a method as the mocked method hands them on, joined by `, `.
pub open spec fn names_text(method: WheyMethod) -> Seq<char> {
    joined(input_name_texts(method.inputs@), ", "@)
}

/// The part of a mocked method that checks its inputs against the first
/// input comparison still to be used.
pub open spec fn compare_input_text(testing: Seq<char>, method: WheyMethod) -> Seq<char> {
    let ident = method.ident@;
    let times = "expected_input_times_"@ + ident;
    "let length = self."@ + times + ".lock().unwrap().len(); for i in 0..length { if self."@ + times
        + ".lock().unwrap()[i] > 0 { self."@ + times + ".lock().unwrap()[i] -= 1; if !(self."@
        + "expected_input_"@ + ident + ".lock().unwrap()[i])("@ + names_text(method)
        + ") { panic!(\"the expected inputs for "@ + testing + "::"@ + ident
        + " were not supplied\"); } break; } } "@
}

/// The part of a mocked method that returns from the first stored generator
/// still to be used, else from the default generator.
pub open spec fn generate_return_text(testing: Seq<char>, method: WheyMethod) -> Seq<char> {
    let ident = method.ident@;
    let times = "returned_times_"@ + ident;
    let names = names_text(method);
    "let length = self."@ + times + ".lock().unwrap().len(); for i in 0..length { if self."@ + times
        + ".lock().unwrap()[i] > 0 { self."@ + times + ".lock().unwrap()[i] -= 1; return (self."@
        + "returned_"@ + ident + ".lock().unwrap()[i])("@ + names + ") } } match &*self."@
        + "default_generator_"@ + ident + ".lock().unwrap() { Some(generator) => return generator("@
        + names + "), _ => panic!(\"a return is necessary for "@ + testing + "::"@ + ident
        + " but none have been supplied\"), } "@
}

/// A mocked method: its signature, then a body that records the call,
/// checks the inputs where there are any and generates the return where
/// there is one.
pub open spec fn impl_text(testing: Seq<char>, method: WheyMethod) -> Seq<char> {
    method.signature@ + " { *self."@ + "recorded_calls_"@ + method.ident@
        + ".lock().unwrap() += 1; "@ + (if takes_arguments(method.inputs@) {
        compare_input_text(testing, method)
    } else {
        seq![]
    }) + (if method.output is Some {
        generate_return_text(testing, method)
    } else {
        seq![]
    }) + "}"@
}

fn compare_input_string(testing: &str, method: &WheyMethod, names: &str) -> (r: String)
    requires
        names@ == names_text(*method),
    ensures
        r@ == compare_input_text(testing@, *method),
{
    let ident = method.ident.as_str();
    let times = expected_input_times_field(ident);
    let mut r = String::from_str("let length = self.");
    r.append(times.as_str());
    r.append(".lock().unwrap().len(); for i in 0..length { if self.");
    r.append(times.as_str());
    r.append(".lock().unwrap()[i] > 0 { self.");
    r.append(times.as_str());
    r.append(".lock().unwrap()[i] -= 1; if !(self.");
    r.append(expected_input_field(ident).as_str());
    r.append(".lock().unwrap()[i])(");
    r.append(names);
    r.append(") { panic!(\"the expected inputs for ");
    r.append(testing);
    r.append("::");
    r.append(ident);
    r.append(" were not supplied\"); } break; } } ");
    r
}

fn generate_return_string(testing: &str, method: &WheyMethod, names: &str) -> (r: String)
    requires
        names@ == names_text(*method),
    ensures
        r@ == generate_return_text(testing@, *method),
{
    let ident = method.ident.as_str();
    let times = returned_times_field(ident);
    let mut r = String::from_str("let length = self.");
    r.append(times.as_str());
    r.append(".lock().unwrap().len(); for i in 0..length { if self.");
    r.append(times.as_str());
    r.append(".lock().unwrap()[i] > 0 { self.");
    r.append(times.as_str());
    r.append(".lock().unwrap()[i] -= 1; return (self.");
    r.append(returned_field(ident).as_str());
    r.append(".lock().unwrap()[i])(");
    r.append(names);
    r.append(") } } match &*self.");
    r.append(default_generator_field(ident).as_str());
    r.append(".lock().unwrap() { Some(generator) => return generator(");
    r.append(names);
    r.append("), _ => panic!(\"a return is necessary for ");
    r.append(testing);
    r.append("::");
    r.append(ident);
    r.append(" but none have been supplied\"), } ");
    r
}

/// The mocked method `method` of the testing struct `testing_struct_name`.
pub fn quote_impl(testing_struct_name: &str, method: &WheyMethod) -> (r: String)
    ensures
        r@ == impl_text(testing_struct_name@, *method),
{
    let names = input_names_string(&method.inputs);
    let mut r = method.signature.clone();
    r.append(" { *self.");
    r.append(recorded_calls_field(method.ident.as_str()).as_str());
    r.append(".lock().unwrap() += 1; ");
    if has_inputs(&method.inputs) {
        r.append(compare_input_string(testing_struct_name, method, names.as_str()).as_str());
    }
    match &method.output {
        Some(_) => {
            r.append(generate_return_string(testing_struct_name, method, names.as_str()).as_str());
        },
        None => {},
    }
    r.append("}");
    r
}

/// The methods through which a test sets up what it expects of `method`:
/// how many calls, and where the method takes inputs, a comparison of them,
/// and where it returns a value, a default generator and stored generators.
pub open spec fn setup_expectations_text(method: WheyMethod, lifetimes: Seq<String>) -> Seq<
    Seq<char>,
> {
    let ident = method.ident@;
    let inputs = input_types_text(method.inputs@);
    seq![
        "pub fn "@ + ("expect_calls_"@ + ident) + "(&self, expected: u32) { *self."@
            + ("expected_calls_"@ + ident) + ".lock().unwrap() = Some(expected); }"@,
    ] + (if takes_arguments(method.inputs@) {
        seq![
            "pub fn "@ + ("store_expected_input_"@ + ident)
                + "<TComparer: 'static + Send + Sync + Fn("@ + inputs
                + ") -> bool>(&self, comparison: TComparer, times: u32) { self."@
                + ("expected_input_times_"@ + ident) + ".lock().unwrap().push(times); self."@
                + ("expected_input_"@ + ident)
                + ".lock().unwrap().push(std::boxed::Box::new(comparison)); }"@,
        ]
    } else {
        seq![]
    }) + match method.output {
        Some(ty) => {
            let returned = return_type_text(ty, lifetimes);
            seq![
                "pub fn "@ + ("default_return_"@ + ident)
                    + "<TGenerator: 'static + Send + Sync + Fn("@ + inputs + ") -> "@ + returned
                    + ">(&self, generator: TGenerator) { *self."@ + ("default_generator_"@ + ident)
                    + ".lock().unwrap() = Some(std::boxed::Box::new(generator)); }"@,
                "pub fn "@ + ("store_return_"@ + ident)
                    + "<TGenerator: 'static + Send + Sync + Fn("@ + inputs + ") -> "@ + returned
                    + ">(&self, generator: TGenerator, times: u32) { self."@ + (
                "returned_times_"@ + ident) + ".lock().unwrap().push(times); self."@ + (
                "returned_"@ + ident) + ".lock().unwrap().push(std::boxed::Box::new(generator)); }"@,
            ]
        },
        None => seq![],
    }
}

/// The methods of the testing struct through which a test sets up what it
/// expects of `method`.
pub fn quote_setup_expectations(method: &WheyMethod, lifetimes: &Vec<String>) -> (r: Vec<String>)
    ensures
        string_texts(r@) == setup_expectations_text(*method, lifetimes@),
{
    let ident = method.ident.as_str();
    let mut setups: Vec<String> = Vec::new();
    let mut expect = String::from_str("pub fn ");
    expect.append(expect_calls_method(ident).as_str());
    expect.append("(&self, expected: u32) { *self.");
    expect.append(expected_calls_field(ident).as_str());
    expect.append(".lock().unwrap() = Some(expected); }");
    setups.push(expect);
    let (inputs, takes) = input_types_string(&method.inputs);
    if takes {
        let mut store = String::from_str("pub fn ");
        store.append(store_expected_input_method(ident).as_str());
        store.append("<TComparer: 'static + Send + Sync + Fn(");
        store.append(inputs.as_str());
        store.append(") -> bool>(&self, comparison: TComparer, times: u32) { self.");
        store.append(expected_input_times_field(ident).as_str());
        store.append(".lock().unwrap().push(times); self.");
        store.append(expected_input_field(ident).as_str());
        store.append(".lock().unwrap().push(std::boxed::Box::new(comparison)); }");
        setups.push(store);
    }
    match &method.output {
        Some(ty) => {
            let returned = field_return_type(ty, lifetimes);
            let mut default = String::from_str("pub fn ");
            default.append(default_return_method(ident).as_str());
            default.append("<TGenerator: 'static + Send + Sync + Fn(");
            default.append(inputs.as_str());
            default.append(") -> ");
            default.append(returned.as_str());
            default.append(">(&self, generator: TGenerator) { *self.");
            default.append(default_generator_field(ident).as_str());
            default.append(".lock().unwrap() = Some(std::boxed::Box::new(generator)); }");
            setups.push(default);
            let mut store = String::from_str("pub fn ");
            store.append(store_return_method(ident).as_str());
            store.append("<TGenerator: 'static + Send + Sync + Fn(");
            store.append(inputs.as_str());
            store.append(") -> ");
            store.append(returned.as_str());
            store.append(">(&self, generator: TGenerator, times: u32) { self.");
            store.append(returned_times_field(ident).as_str());
            store.append(".lock().unwrap().push(times); self.");
            store.append(returned_field(ident).as_str());
            store.append(".lock().unwrap().push(std::boxed::Box::new(generator)); }");
            setups.push(store);
        },
        None => {},
    }
    assert(string_texts(setups@) =~= setup_expectations_text(*method, lifetimes@));
    setups
}

/// The checks that `assert` makes of `method`: the number of calls where
/// one was expected, that every input comparison and every stored generator
/// has been used up.
pub open spec fn assert_expectations_text(testing: Seq<char>, method: WheyMethod) -> Seq<char> {
    let ident = method.ident@;
    let expected = "expected_calls_"@ + ident;
    let recorded = "recorded_calls_"@ + ident;
    "if self."@ + expected + ".lock().unwrap().is_some() && self."@ + expected
        + ".lock().unwrap().unwrap() != *self."@ + recorded
        + ".lock().unwrap() { panic!(\"expected {} calls to "@ + testing + "::"@ + ident
        + " but recorded {} instead\", self."@ + expected + ".lock().unwrap().unwrap(), self."@
        + recorded + ".lock().unwrap()); } "@ + (if takes_arguments(method.inputs@) {
        "if self."@ + ("expected_input_times_"@ + ident)
            + ".lock().unwrap().iter().any(|comparer| *comparer != 0) { panic!(\"not all stored input comparisons for "@
            + testing + "::"@ + ident + " have been consumed\"); } "@
    } else {
        seq![]
    }) + (if method.output is Some {
        "if self."@ + ("returned_times_"@ + ident)
            + ".lock().unwrap().iter().any(|generator| *generator != 0) { panic!(\"not all stored returns for "@
            + testing + "::"@ + ident + " have been consumed\"); } "@
    } else {
        seq![]
    })
}

/// The checks of what a test expected of `method`, for the testing struct
/// `testing_struct_name`.
pub fn quote_assert_expectations(testing_struct_name: &str, method: &WheyMethod) -> (r: String)
    ensures
        r@ == assert_expectations_text(testing_struct_name@, *method),
{
    let ident = method.ident.as_str();
    let expected = expected_calls_field(ident);
    let recorded = recorded_calls_field(ident);
    let mut r = String::from_str("if self.");
    r.append(expected.as_str());
    r.append(".lock().unwrap().is_some() && self.");
    r.append(expected.as_str());
    r.append(".lock().unwrap().unwrap() != *self.");
    r.append(recorded.as_str());
    r.append(".lock().unwrap() { panic!(\"expected {} calls to ");
    r.append(testing_struct_name);
    r.append("::");
    r.append(ident);
    r.append(" but recorded {} instead\", self.");
    r.append(expected.as_str());
    r.append(".lock().unwrap().unwrap(), self.");
    r.append(recorded.as_str());
    r.append(".lock().unwrap()); } ");
    if has_inputs(&method.inputs) {
        r.append("if self.");
        r.append(expected_input_times_field(ident).as_str());
        r.append(
            ".lock().unwrap().iter().any(|comparer| *comparer != 0) { panic!(\"not all stored input comparisons for ",
        );
        r.append(testing_struct_name);
        r.append("::");
        r.append(ident);
        r.append(" have been consumed\"); } ");
    }
    match &method.output {
        Some(_) => {
            r.append("if self.");
            r.append(returned_times_field(ident).as_str());
            r.append(
                ".lock().unwrap().iter().any(|generator| *generator != 0) { panic!(\"not all stored returns for ",
            );
            r.append(testing_struct_name);
            r.append("::");
            r.append(ident);
            r.append(" have been consumed\"); } ");
        },
        None => {},
    }
    r
}

/// What `reset` does for `method`: no expected number of calls, no calls
/// recorded, no input comparisons and no stored generators.
pub open spec fn reset_expectations_text(method: WheyMethod) -> Seq<char> {
    let ident = method.ident@;
    "*self."@ + ("expected_calls_"@ + ident) + ".lock().unwrap() = None; *self."@ + (
    "recorded_calls_"@ + ident) + ".lock().unwrap() = 0; "@ + (if takes_arguments(
        method.inputs@,
    ) {
        "self."@ + ("expected_input_times_"@ + ident) + ".lock().unwrap().clear(); self."@ + (
        "expected_input_"@ + ident) + ".lock().unwrap().clear(); "@
    } else {
        seq![]
    }) + (if method.output is Some {
        "self."@ + ("returned_times_"@ + ident) + ".lock().unwrap().clear(); self."@ + ("returned_"@
            + ident) + ".lock().unwrap().clear(); "@
    } else {
        seq![]
    })
}

/// The statements that reset what a test expected of `method`.
pub fn quote_reset_expectations(method: &WheyMethod) -> (r: String)
    ensures
        r@ == reset_expectations_text(*method),
{
    let ident = method.ident.as_str();
    let mut r = String::from_str("*self.");
    r.append(expected_calls_field(ident).as_str());
    r.append(".lock().unwrap() = None; *self.");
    r.append(recorded_calls_field(ident).as_str());
    r.append(".lock().unwrap() = 0; ");
    if has_inputs(&method.inputs) {
        r.append("self.");
        r.append(expected_input_times_field(ident).as_str());
        r.append(".lock().unwrap().clear(); self.");
        r.append(expected_input_field(ident).as_str());
        r.append(".lock().unwrap().clear(); ");
    }
    match &method.output {
        Some(_) => {
            r.append("self.");
            r.append(returned_times_field(ident).as_str());
            r.append(".lock().unwrap().clear(); self.");
            r.append(returned_field(ident).as_str());
            r.append(".lock().unwrap().clear(); ");
        },
        None => {},
    }
    r
}

} // verus!
