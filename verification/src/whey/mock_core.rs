//! The methods of the core of a mocked trait that store what a test expects
//! and answer the calls of the mocked methods.
use vstd::prelude::*;
use super::expectation::typed_input_types;
use super::fields::{WheyFnArg, WheyMethod};
use super::mock::WheyMock;
use super::model::{join_texts, joined, string_texts};
use super::names::{
    default_generator_field, default_return_method, expected_input_field,
    expected_input_times_field, returned_field, returned_times_field, store_return_method,
};
use super::types::{WheyType, type_text};

verus! {

/// The core of a mocked trait.
pub struct WheyMockCore<'a> {
    pub mock: &'a WheyMock,
}

/// The method of a core that checks the inputs of a call.
pub fn consume_expected_input_method(ident: &str) -> (r: String)
    ensures
        r@ == "consume_expected_input_"@ + ident@,
{
    String::from_str("consume_expected_input_").concat(ident)
}

/// The method of a core that generates the return of a call.
pub fn generate_return_method(ident: &str) -> (r: String)
    ensures
        r@ == "generate_return_"@ + ident@,
{
    String::from_str("generate_return_").concat(ident)
}

/// The parameters of a method other than its receiver, as written.
pub open spec fn param_texts(inputs: Seq<WheyFnArg>) -> Seq<Seq<char>>
    decreases inputs.len(),
{
    if inputs.len() == 0 {
        seq![]
    } else {
        match inputs.last() {
            WheyFnArg::Typed { pattern, ty } => param_texts(inputs.drop_last()).push(
                pattern@ + ": "@ + type_text(ty),
            ),
            WheyFnArg::Receiver { .. } => param_texts(inputs.drop_last()),
        }
    }
}

/// The parameters of a method other than its receiver, each value taken by
/// reference.
pub open spec fn borrowed_param_texts(inputs: Seq<WheyFnArg>) -> Seq<Seq<char>>
    decreases inputs.len(),
{
    if inputs.len() == 0 {
        seq![]
    } else {
        match inputs.last() {
            WheyFnArg::Typed { pattern, ty } => borrowed_param_texts(inputs.drop_last()).push(
                if ty is Reference {
                    pattern@ + ": "@ + type_text(ty)
                } else {
                    pattern@ + ": &"@ + type_text(ty)
                },
            ),
            WheyFnArg::Receiver { .. } => borrowed_param_texts(inputs.drop_last()),
        }
    }
}

/// The patterns of the parameters of a method other than its receiver.
pub open spec fn pattern_texts(inputs: Seq<WheyFnArg>) -> Seq<Seq<char>>
    decreases inputs.len(),
{
    if inputs.len() == 0 {
        seq![]
    } else {
        match inputs.last() {
            WheyFnArg::Typed { pattern, .. } => pattern_texts(inputs.drop_last()).push(pattern@),
            WheyFnArg::Receiver { .. } => pattern_texts(inputs.drop_last()),
        }
    }
}

/// The types of the parameters of a method other than its receiver, as
/// written, joined by `, `.
pub open spec fn raw_types_text(inputs: Seq<WheyFnArg>) -> Seq<char> {
    joined(typed_input_types(inputs).map_values(|t: WheyType| type_text(t)), ", "@)
}

/// The kinds of parameter lists a core method writes out.
enum ParamStyle {
    AsWritten,
    Borrowed,
    Patterns,
    Types,
}

spec fn param_style_texts(inputs: Seq<WheyFnArg>, style: ParamStyle) -> Seq<Seq<char>> {
    match style {
        ParamStyle::AsWritten => param_texts(inputs),
        ParamStyle::Borrowed => borrowed_param_texts(inputs),
        ParamStyle::Patterns => pattern_texts(inputs),
        ParamStyle::Types => typed_input_types(inputs).map_values(|t: WheyType| type_text(t)),
    }
}

/// The parameters of a method in the given style, joined by `, `.
fn params_string(inputs: &Vec<WheyFnArg>, style: ParamStyle) -> (r: (String, usize))
    ensures
        r.0@ == joined(param_style_texts(inputs@, style), ", "@),
        r.1 == param_style_texts(inputs@, style).len(),
{
    let mut parts: Vec<String> = Vec::new();
    let n = inputs.len();
    let mut i: usize = 0;
    while i < n
        invariant
            n == inputs@.len(),
            i <= n,
            string_texts(parts@) == param_style_texts(inputs@.take(i as int), style),
        decreases n - i,
    {
        let ghost before = parts@;
        let ghost after = inputs@.take(i + 1);
        assert(after.drop_last() =~= inputs@.take(i as int));
        assert(after.last() == inputs@[i as int]);
        match &inputs[i] {
            WheyFnArg::Typed { pattern, ty } => {
                let piece = match style {
                    ParamStyle::AsWritten => pattern.clone().concat(": ").concat(ty.text().as_str()),
                    ParamStyle::Borrowed => match ty {
                        WheyType::Reference { .. } => pattern.clone().concat(": ").concat(
                            ty.text().as_str(),
                        ),
                        _ => pattern.clone().concat(": &").concat(ty.text().as_str()),
                    },
                    ParamStyle::Patterns => pattern.clone(),
                    ParamStyle::Types => ty.text(),
                };
                parts.push(piece);
                assert(string_texts(parts@) =~= string_texts(before).push(piece@));
                assert(typed_input_types(after) == typed_input_types(inputs@.take(i as int)).push(
                    *ty,
                ));
                assert(string_texts(parts@) =~= param_style_texts(after, style));
            },
            WheyFnArg::Receiver { .. } => {},
        }
        i = i + 1;
    }
    assert(inputs@.take(n as int) =~= inputs@);
    (join_texts(&parts, ", "), parts.len())
}

/// The method of the core that checks the inputs of a call of `method`
/// against the first comparison still to be used.
pub open spec fn consume_expected_input_text(trait_ident: Seq<char>, method: WheyMethod) -> Seq<
    char,
> {
    let ident = method.ident@;
    let times = "expected_input_times_"@ + ident;
    let params = borrowed_param_texts(method.inputs@);
    "pub fn "@ + ("consume_expected_input_"@ + ident) + "("@ + joined(
        seq!["&mut self"@] + params,
        ", "@,
    ) + ") { let length = self."@ + times + ".len(); for i in 0..length { if self."@ + times
        + "[i] > 0 { self."@ + times + "[i] -= 1; if !(self."@ + ("expected_input_"@ + ident)
        + "[i])("@ + joined(pattern_texts(method.inputs@), ", "@)
        + ") { panic!(\"the expected inputs for "@ + trait_ident + "::"@ + ident
        + " were not supplied\"); } break; } } }"@
}

/// The method of the core that sets the default return generator of
/// `method`.
pub open spec fn core_default_return_text(method: WheyMethod, returned: WheyType) -> Seq<char> {
    let ident = method.ident@;
    "pub fn "@ + ("default_return_"@ + ident)
        + "(&mut self, generator: std::boxed::Box<dyn Fn("@ + raw_types_text(method.inputs@)
        + ") -> "@ + type_text(returned) + ">) { self."@ + ("default_generator_"@ + ident)
        + " = Some(generator); }"@
}

/// The method of the core that stores a return generator of `method`, to be
/// used a number of times.
pub open spec fn core_store_return_text(method: WheyMethod, returned: WheyType) -> Seq<char> {
    let ident = method.ident@;
    "pub fn "@ + ("store_return_"@ + ident)
        + "(&mut self, generator: std::boxed::Box<dyn Fn("@ + raw_types_text(method.inputs@)
        + ") -> "@ + type_text(returned) + ">, times: u32) { self."@ + ("returned_times_"@ + ident)
        + ".push(times); self."@ + ("returned_"@ + ident) + ".push(generator); }"@
}

/// The method of the core that generates the return of a call of `method`:
/// from the first stored generator still to be used, else from the default
/// generator.
pub open spec fn core_generate_return_text(
    trait_ident: Seq<char>,
    method: WheyMethod,
    returned: WheyType,
) -> Seq<char> {
    let ident = method.ident@;
    let times = "returned_times_"@ + ident;
    let names = joined(pattern_texts(method.inputs@), ", "@);
    "pub fn "@ + ("generate_return_"@ + ident) + "("@ + joined(
        seq!["&mut self"@] + param_texts(method.inputs@),
        ", "@,
    ) + ") -> "@ + type_text(returned) + " { let length = self."@ + times
        + ".len(); for i in 0..length { if self."@ + times + "[i] > 0 { self."@ + times
        + "[i] -= 1; return (self."@ + ("returned_"@ + ident) + "[i])("@ + names
        + ") } } match &self."@ + ("default_generator_"@ + ident)
        + " { Some(generator) => return generator("@ + names
        + "), _ => panic!(\"a return is necessary for "@ + trait_ident + "::"@ + ident
        + " but none have been supplied\"), } }"@
}

/// `&mut self` followed by `rest`, joined by `, `.
fn with_receiver(rest: &str, count: usize) -> (r: String)
    ensures
        count == 0 ==> r@ == "&mut self"@,
        count > 0 ==> r@ == "&mut self"@ + ", "@ + rest@,
{
    if count == 0 {
        String::from_str("&mut self")
    } else {
        String::from_str("&mut self").concat(", ").concat(rest)
    }
}

proof fn lemma_joined_prepend(first: Seq<char>, rest: Seq<Seq<char>>, sep: Seq<char>)
    ensures
        joined(seq![first] + rest, sep) == if rest.len() == 0 {
            first
        } else {
            first + sep + joined(rest, sep)
        },
    decreases rest.len(),
{
    let all = seq![first] + rest;
    if rest.len() > 1 {
        lemma_joined_prepend(first, rest.drop_last(), sep);
        assert(all.drop_last() =~= seq![first] + rest.drop_last());
        assert(all.last() == rest.last());
        assert(joined(all, sep) == joined(all.drop_last(), sep) + sep + all.last());
        assert(joined(rest, sep) == joined(rest.drop_last(), sep) + sep + rest.last());
        assert(joined(all, sep) =~= first + sep + joined(rest, sep));
    } else if rest.len() == 1 {
        assert(all.drop_last() =~= seq![first]);
        assert(all.last() == rest[0]);
        assert(joined(seq![first], sep) == first);
        assert(joined(all, sep) =~= first + sep + joined(rest, sep));
    } else {
        assert(seq![first] + rest =~= seq![first]);
    }
}

impl<'a> WheyMockCore<'a> {
    /// The core of `mock`.
    pub fn new(mock: &'a WheyMock) -> (r: WheyMockCore<'a>)
        ensures
            r.mock == mock,
    {
        WheyMockCore { mock }
    }

    /// The method that checks the inputs of a call of `method`.
    pub fn quote_consume_expected_input(&self, method: &WheyMethod) -> (r: String)
        ensures
            r@ == consume_expected_input_text(self.mock.mocked_trait.ident@, *method),
    {
        let ident = method.ident.as_str();
        let times = expected_input_times_field(ident);
        let (params, count) = params_string(&method.inputs, ParamStyle::Borrowed);
        proof {
            lemma_joined_prepend("&mut self"@, borrowed_param_texts(method.inputs@), ", "@);
        }
        let mut r = String::from_str("pub fn ");
        r.append(consume_expected_input_method(ident).as_str());
        r.append("(");
        r.append(with_receiver(params.as_str(), count).as_str());
        r.append(") { let length = self.");
        r.append(times.as_str());
        r.append(".len(); for i in 0..length { if self.");
        r.append(times.as_str());
        r.append("[i] > 0 { self.");
        r.append(times.as_str());
        r.append("[i] -= 1; if !(self.");
        r.append(expected_input_field(ident).as_str());
        r.append("[i])(");
        r.append(params_string(&method.inputs, ParamStyle::Patterns).0.as_str());
        r.append(") { panic!(\"the expected inputs for ");
        r.append(self.mock.mocked_trait.ident.as_str());
        r.append("::");
        r.append(ident);
        r.append(" were not supplied\"); } break; } } }");
        r
    }

    /// The method that sets the default return generator of `method`.
    pub fn quote_default_return(&self, method: &WheyMethod, returned_type: &WheyType) -> (r:
        String)
        ensures
            r@ == core_default_return_text(*method, *returned_type),
    {
        let ident = method.ident.as_str();
        let mut r = String::from_str("pub fn ");
        r.append(default_return_method(ident).as_str());
        r.append("(&mut self, generator: std::boxed::Box<dyn Fn(");
        r.append(params_string(&method.inputs, ParamStyle::Types).0.as_str());
        r.append(") -> ");
        r.append(returned_type.text().as_str());
        r.append(">) { self.");
        r.append(default_generator_field(ident).as_str());
        r.append(" = Some(generator); }");
        r
    }

    /// The method that stores a return generator of `method`.
    pub fn quote_store_return(&self, method: &WheyMethod, returned_type: &WheyType) -> (r: String)
        ensures
            r@ == core_store_return_text(*method, *returned_type),
    {
        let ident = method.ident.as_str();
        let mut r = String::from_str("pub fn ");
        r.append(store_return_method(ident).as_str());
        r.append("(&mut self, generator: std::boxed::Box<dyn Fn(");
        r.append(params_string(&method.inputs, ParamStyle::Types).0.as_str());
        r.append(") -> ");
        r.append(returned_type.text().as_str());
        r.append(">, times: u32) { self.");
        r.append(returned_times_field(ident).as_str());
        r.append(".push(times); self.");
        r.append(returned_field(ident).as_str());
        r.append(".push(generator); }");
        r
    }

    /// The method that generates the return of a call of `method`.
    pub fn quote_generate_return(&self, method: &WheyMethod, returned_type: &WheyType) -> (r:
        String)
        ensures
            r@ == core_generate_return_text(
                self.mock.mocked_trait.ident@,
                *method,
                *returned_type,
            ),
    {
        let ident = method.ident.as_str();
        let times = returned_times_field(ident);
        let (names, _) = params_string(&method.inputs, ParamStyle::Patterns);
        let (params, count) = params_string(&method.inputs, ParamStyle::AsWritten);
        proof {
            lemma_joined_prepend("&mut self"@, param_texts(method.inputs@), ", "@);
        }
        let mut r = String::from_str("pub fn ");
        r.append(generate_return_method(ident).as_str());
        r.append("(");
        r.append(with_receiver(params.as_str(), count).as_str());
        r.append(") -> ");
        r.append(returned_type.text().as_str());
        r.append(" { let length = self.");
        r.append(times.as_str());
        r.append(".len(); for i in 0..length { if self.");
        r.append(times.as_str());
        r.append("[i] > 0 { self.");
        r.append(times.as_str());
        r.append("[i] -= 1; return (self.");
        r.append(returned_field(ident).as_str());
        r.append("[i])(");
        r.append(names.as_str());
        r.append(") } } match &self.");
        r.append(default_generator_field(ident).as_str());
        r.append(" { Some(generator) => return generator(");
        r.append(names.as_str());
        r.append("), _ => panic!(\"a return is necessary for ");
        r.append(self.mock.mocked_trait.ident.as_str());
        r.append("::");
        r.append(ident);
        r.append(" but none have been supplied\"), } }");
        r
    }
}

} // verus!
