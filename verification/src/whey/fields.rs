//! The types that the fields of a testing struct hold: the inputs of a
//! mocked method taken by reference, and its return type with the lifetimes
//! that the struct does not declare taken out.
use vstd::prelude::*;
use super::model::{join_texts, joined, string_texts};
use super::names::{
    default_generator_field, expected_calls_field, expected_input_field,
    expected_input_times_field, recorded_calls_field, returned_field, returned_times_field,
};
use super::types::{
    WheyBound, WheyGenericArgument, WheyPathArguments, WheyType, WheyTypeSegment, bound_string,
    bounds_text, type_text,
};

verus! {

/// An argument of a trait method.
pub enum WheyFnArg {
    /// `self`, `&self` or `&mut self`.
    Receiver { reference: bool, mutable: bool },
    /// `pattern: ty`, the pattern written out.
    Typed { pattern: String, ty: WheyType },
}

/// A method of a mocked trait.
pub struct WheyMethod {
    /// The signature written out, such as `fn read(&self, path: &str) -> String`.
    pub signature: String,
    pub ident: String,
    pub inputs: Vec<WheyFnArg>,
    /// The return type; `None` for `()` written by omission.
    pub output: Option<WheyType>,
}

/// Whether `lifetimes` holds the lifetime `name`.
pub open spec fn has_lifetime(lifetimes: Seq<String>, name: Seq<char>) -> bool {
    exists|i: int| 0 <= i < lifetimes.len() && (#[trigger] lifetimes[i])@ == name
}

/// Whether `lifetimes` holds the lifetime `name`.
fn contains_lifetime(lifetimes: &Vec<String>, name: &String) -> (r: bool)
    ensures
        r == has_lifetime(lifetimes@, name@),
{
    let n = lifetimes.len();
    let mut i: usize = 0;
    while i < n
        invariant
            n == lifetimes@.len(),
            i <= n,
            forall|j: int| 0 <= j < i ==> (#[trigger] lifetimes@[j])@ != name@,
        decreases n - i,
    {
        if lifetimes[i].eq(name) {
            assert(lifetimes@[i as int]@ == name@);
            return true;
        }
        i = i + 1;
    }
    false
}

/// Whether a bound of a trait object stays in a field's type: lifetimes
/// only where the testing struct declares them.
pub open spec fn bound_kept(bound: WheyBound, lifetimes: Seq<String>) -> bool {
    match bound {
        WheyBound::Lifetime(name) => has_lifetime(lifetimes, name@),
        WheyBound::Other(_) => true,
    }
}

/// The bounds that stay, in their order.
pub open spec fn kept_bounds(bounds: Seq<WheyBound>, lifetimes: Seq<String>) -> Seq<WheyBound>
    decreases bounds.len(),
{
    if bounds.len() == 0 {
        seq![]
    } else if bound_kept(bounds.last(), lifetimes) {
        kept_bounds(bounds.drop_last(), lifetimes).push(bounds.last())
    } else {
        kept_bounds(bounds.drop_last(), lifetimes)
    }
}

/// A lifetime of a reference, written out with the space after it, where it
/// stays.
pub open spec fn kept_lifetime_text(lifetime: Option<String>, lifetimes: Seq<String>) -> Seq<
    char,
> {
    match lifetime {
        Some(name) => if has_lifetime(lifetimes, name@) {
            "'"@ + name@ + " "@
        } else {
            seq![]
        },
        None => seq![],
    }
}

/// A return type as a field holds it, written out: a reference loses its
/// `mut` and a lifetime that the struct does not declare, and so do the
/// generic arguments of a path, lifetime bounds of trait objects included.
pub open spec fn return_type_text(ty: WheyType, lifetimes: Seq<String>) -> Seq<char>
    decreases ty, 0nat,
{
    match ty {
        WheyType::Reference { lifetime, mutable, elem } => "&"@ + kept_lifetime_text(
            lifetime,
            lifetimes,
        ) + type_text(*elem),
        WheyType::Path { leading_colon, segments } => (if leading_colon {
            "::"@
        } else {
            seq![]
        }) + return_segments_text(segments@, lifetimes),
        WheyType::TraitObject { .. } => type_text(ty),
        WheyType::Other(text) => text@,
    }
}

pub open spec fn return_segments_text(segments: Seq<WheyTypeSegment>, lifetimes: Seq<String>) -> Seq<
    char,
>
    decreases segments, 0nat,
{
    if segments.len() == 0 {
        seq![]
    } else if segments.len() == 1 {
        return_segment_text(segments[0], lifetimes)
    } else {
        return_segments_text(segments.drop_last(), lifetimes) + "::"@ + return_segment_text(
            segments.last(),
            lifetimes,
        )
    }
}

pub open spec fn return_segment_text(segment: WheyTypeSegment, lifetimes: Seq<String>) -> Seq<char>
    decreases segment, 0nat,
{
    segment.ident@ + match segment.arguments {
        WheyPathArguments::Plain => seq![],
        WheyPathArguments::AngleBracketed { colon2, args } => (if colon2 {
            "::"@
        } else {
            seq![]
        }) + "<"@ + return_args_text(args@, lifetimes) + ">"@,
        WheyPathArguments::Other(text) => text@,
    }
}

pub open spec fn return_args_text(args: Seq<WheyGenericArgument>, lifetimes: Seq<String>) -> Seq<
    char,
>
    decreases args, 0nat,
{
    if args.len() == 0 {
        seq![]
    } else if args.len() == 1 {
        return_arg_text(args[0], lifetimes)
    } else {
        return_args_text(args.drop_last(), lifetimes) + ", "@ + return_arg_text(
            args.last(),
            lifetimes,
        )
    }
}

pub open spec fn return_arg_text(arg: WheyGenericArgument, lifetimes: Seq<String>) -> Seq<char>
    decreases arg, 0nat,
{
    match arg {
        WheyGenericArgument::Type(ty) => match ty {
            WheyType::TraitObject { dyn_token, bounds } => (if dyn_token {
                "dyn "@
            } else {
                seq![]
            }) + bounds_text(kept_bounds(bounds@, lifetimes)),
            _ => return_type_text(ty, lifetimes),
        },
        WheyGenericArgument::Other(text) => text@,
    }
}

/// The bounds that stay, joined by ` + `.
fn kept_bounds_string(bounds: &Vec<WheyBound>, lifetimes: &Vec<String>) -> (r: String)
    ensures
        r@ == bounds_text(kept_bounds(bounds@, lifetimes@)),
{
    let mut r = String::new();
    let mut any = false;
    let n = bounds.len();
    let mut i: usize = 0;
    while i < n
        invariant
            n == bounds@.len(),
            i <= n,
            r@ == bounds_text(kept_bounds(bounds@.take(i as int), lifetimes@)),
            any == (kept_bounds(bounds@.take(i as int), lifetimes@).len() > 0),
        decreases n - i,
    {
        let ghost before = kept_bounds(bounds@.take(i as int), lifetimes@);
        let ghost after = bounds@.take(i + 1);
        assert(after.drop_last() =~= bounds@.take(i as int));
        assert(after.last() == bounds@[i as int]);
        let keep = match &bounds[i] {
            WheyBound::Lifetime(name) => contains_lifetime(lifetimes, name),
            WheyBound::Other(_) => true,
        };
        if keep {
            let ghost pushed = before.push(bounds@[i as int]);
            assert(pushed.drop_last() =~= before);
            if any {
                r.append(" + ");
            } else {
                assert(r@ =~= seq![]);
                assert(pushed =~= seq![bounds@[i as int]]);
            }
            r.append(bound_string(&bounds[i]).as_str());
            any = true;
            assert(r@ =~= bounds_text(pushed));
        }
        i = i + 1;
    }
    assert(bounds@.take(n as int) =~= bounds@);
    r
}

/// The type of a field that holds a return value of `input`: a reference
/// keeps its lifetime only where `lifetimes` declares it and loses `mut`;
/// the generic arguments of a path are corrected the same way, and the
/// trait objects among them lose the lifetime bounds that `lifetimes` does
/// not declare. Other types stay as they are.
pub fn field_return_type(input: &WheyType, lifetimes: &Vec<String>) -> (r: String)
    ensures
        r@ == return_type_text(*input, lifetimes@),
    decreases input, 0nat,
{
    match input {
        WheyType::Reference { lifetime, mutable: _, elem } => {
            let mut r = String::from_str("&");
            match lifetime {
                Some(name) => {
                    if contains_lifetime(lifetimes, name) {
                        r.append("'");
                        r.append(name.as_str());
                        r.append(" ");
                    }
                },
                None => {},
            }
            r.append(elem.text().as_str());
            r
        },
        WheyType::Path { leading_colon, segments } => {
            let prefix = if *leading_colon {
                String::from_str("::")
            } else {
                String::new()
            };
            prefix.concat(return_segments_string(segments, lifetimes).as_str())
        },
        _ => input.text(),
    }
}

fn return_segments_string(segments: &Vec<WheyTypeSegment>, lifetimes: &Vec<String>) -> (r: String)
    ensures
        r@ == return_segments_text(segments@, lifetimes@),
    decreases segments, 0nat,
{
    let mut r = String::new();
    let n = segments.len();
    let mut i: usize = 0;
    while i < n
        invariant
            n == segments@.len(),
            i <= n,
            r@ == return_segments_text(segments@.take(i as int), lifetimes@),
        decreases n - i,
    {
        let ghost after = segments@.take(i + 1);
        assert(after.drop_last() =~= segments@.take(i as int));
        assert(after.last() == segments@[i as int]);
        if i > 0 {
            r.append("::");
        } else {
            assert(r@ =~= seq![]);
        }
        let piece = return_segment_string(&segments[i], lifetimes);
        r.append(piece.as_str());
        i = i + 1;
        assert(r@ =~= return_segments_text(after, lifetimes@));
    }
    assert(segments@.take(n as int) =~= segments@);
    r
}

fn return_segment_string(segment: &WheyTypeSegment, lifetimes: &Vec<String>) -> (r: String)
    ensures
        r@ == return_segment_text(*segment, lifetimes@),
    decreases segment, 0nat,
{
    let mut r = segment.ident.clone();
    match &segment.arguments {
        WheyPathArguments::Plain => {},
        WheyPathArguments::AngleBracketed { colon2, args } => {
            if *colon2 {
                r.append("::");
            }
            r.append("<");
            r.append(return_args_string(args, lifetimes).as_str());
            r.append(">");
        },
        WheyPathArguments::Other(text) => {
            r.append(text.as_str());
        },
    }
    r
}

fn return_args_string(args: &Vec<WheyGenericArgument>, lifetimes: &Vec<String>) -> (r: String)
    ensures
        r@ == return_args_text(args@, lifetimes@),
    decreases args, 0nat,
{
    let mut r = String::new();
    let n = args.len();
    let mut i: usize = 0;
    while i < n
        invariant
            n == args@.len(),
            i <= n,
            r@ == return_args_text(args@.take(i as int), lifetimes@),
        decreases n - i,
    {
        let ghost after = args@.take(i + 1);
        assert(after.drop_last() =~= args@.take(i as int));
        assert(after.last() == args@[i as int]);
        if i > 0 {
            r.append(", ");
        } else {
            assert(r@ =~= seq![]);
        }
        let piece = match &args[i] {
            WheyGenericArgument::Type(ty) => match ty {
                WheyType::TraitObject { dyn_token, bounds } => {
                    let prefix = if *dyn_token {
                        String::from_str("dyn ")
                    } else {
                        String::new()
                    };
                    prefix.concat(kept_bounds_string(bounds, lifetimes).as_str())
                },
                _ => field_return_type(ty, lifetimes),
            },
            WheyGenericArgument::Other(text) => text.clone(),
        };
        assert(piece@ == return_arg_text(args@[i as int], lifetimes@));
        r.append(piece.as_str());
        i = i + 1;
        assert(r@ =~= return_args_text(after, lifetimes@));
    }
    assert(args@.take(n as int) =~= args@);
    r
}

/// The type of a field that holds an input of type `ty`, written out: `&`
/// and the type, where a reference loses its own `&`, lifetime and `mut`.
pub open spec fn field_input_text(ty: WheyType) -> Seq<char> {
    match ty {
        WheyType::Reference { elem, .. } => "&"@ + type_text(*elem),
        _ => "&"@ + type_text(ty),
    }
}

fn field_input_string(ty: &WheyType) -> (r: String)
    ensures
        r@ == field_input_text(*ty),
{
    match ty {
        WheyType::Reference { elem, .. } => String::from_str("&").concat(elem.text().as_str()),
        _ => String::from_str("&").concat(ty.text().as_str()),
    }
}

/// The types of the fields that hold the inputs `inputs`, written out, in
/// their order: each input taken by a reference without lifetime or `mut`.
pub fn field_input_types(inputs: &Vec<WheyType>) -> (r: Vec<String>)
    ensures
        r@.len() == inputs@.len(),
        forall|i: int| 0 <= i < inputs@.len() ==> (#[trigger] r@[i])@ == field_input_text(inputs@[i]),
{
    let mut r: Vec<String> = Vec::new();
    let n = inputs.len();
    let mut i: usize = 0;
    while i < n
        invariant
            n == inputs@.len(),
            i <= n,
            r@.len() == i,
            forall|j: int| 0 <= j < i ==> (#[trigger] r@[j])@ == field_input_text(inputs@[j]),
        decreases n - i,
    {
        r.push(field_input_string(&inputs[i]));
        i = i + 1;
    }
    r
}

/// The field types of the inputs of a method that are not its receiver.
pub open spec fn input_type_texts(inputs: Seq<WheyFnArg>) -> Seq<Seq<char>>
    decreases inputs.len(),
{
    if inputs.len() == 0 {
        seq![]
    } else {
        match inputs.last() {
            WheyFnArg::Typed { ty, .. } => input_type_texts(inputs.drop_last()).push(
                field_input_text(ty),
            ),
            WheyFnArg::Receiver { .. } => input_type_texts(inputs.drop_last()),
        }
    }
}

/// The field types of the inputs of a method joined by `, `.
pub open spec fn input_types_text(inputs: Seq<WheyFnArg>) -> Seq<char> {
    joined(input_type_texts(inputs), ", "@)
}

/// How an input is handed on to a comparison or a generator: a reference as
/// it is, any other value by reference.
pub open spec fn input_name_text(pattern: String, ty: WheyType) -> Seq<char> {
    if ty is Reference {
        pattern@
    } else {
        "&"@ + pattern@
    }
}

/// The inputs of a method that are not its receiver, as they are handed on.
pub open spec fn input_name_texts(inputs: Seq<WheyFnArg>) -> Seq<Seq<char>>
    decreases inputs.len(),
{
    if inputs.len() == 0 {
        seq![]
    } else {
        match inputs.last() {
            WheyFnArg::Typed { pattern, ty } => input_name_texts(inputs.drop_last()).push(
                input_name_text(pattern, ty),
            ),
            WheyFnArg::Receiver { .. } => input_name_texts(inputs.drop_last()),
        }
    }
}

/// Whether a method takes an input besides its receiver.
pub open spec fn takes_arguments(inputs: Seq<WheyFnArg>) -> bool {
    exists|i: int| 0 <= i < inputs.len() && #[trigger] inputs[i] is Typed
}

pub proof fn lemma_typed_inputs(inputs: Seq<WheyFnArg>)
    ensures
        input_name_texts(inputs).len() == input_type_texts(inputs).len(),
        (input_type_texts(inputs).len() > 0) == takes_arguments(inputs),
    decreases inputs.len(),
{
    if inputs.len() > 0 {
        let before = inputs.drop_last();
        lemma_typed_inputs(before);
        if takes_arguments(inputs) && !(inputs.last() is Typed) {
            let i = choose|i: int| 0 <= i < inputs.len() && #[trigger] inputs[i] is Typed;
            assert(before[i] is Typed);
        }
        if takes_arguments(before) {
            let i = choose|i: int| 0 <= i < before.len() && #[trigger] before[i] is Typed;
            assert(inputs[i] is Typed);
        }
        if inputs.last() is Typed {
            assert(inputs[inputs.len() - 1] is Typed);
        }
    }
}

fn input_type_strings(inputs: &Vec<WheyFnArg>) -> (r: Vec<String>)
    ensures
        string_texts(r@) == input_type_texts(inputs@),
{
    let mut r: Vec<String> = Vec::new();
    let n = inputs.len();
    let mut i: usize = 0;
    while i < n
        invariant
            n == inputs@.len(),
            i <= n,
            string_texts(r@) == input_type_texts(inputs@.take(i as int)),
        decreases n - i,
    {
        let ghost before = r@;
        let ghost after = inputs@.take(i + 1);
        assert(after.drop_last() =~= inputs@.take(i as int));
        assert(after.last() == inputs@[i as int]);
        match &inputs[i] {
            WheyFnArg::Typed { ty, .. } => {
                let piece = field_input_string(ty);
                r.push(piece);
                assert(string_texts(r@) =~= string_texts(before).push(piece@));
            },
            WheyFnArg::Receiver { .. } => {},
        }
        i = i + 1;
    }
    assert(inputs@.take(n as int) =~= inputs@);
    r
}

fn input_name_strings(inputs: &Vec<WheyFnArg>) -> (r: Vec<String>)
    ensures
        string_texts(r@) == input_name_texts(inputs@),
{
    let mut r: Vec<String> = Vec::new();
    let n = inputs.len();
    let mut i: usize = 0;
    while i < n
        invariant
            n == inputs@.len(),
            i <= n,
            string_texts(r@) == input_name_texts(inputs@.take(i as int)),
        decreases n - i,
    {
        let ghost before = r@;
        let ghost after = inputs@.take(i + 1);
        assert(after.drop_last() =~= inputs@.take(i as int));
        assert(after.last() == inputs@[i as int]);
        match &inputs[i] {
            WheyFnArg::Typed { pattern, ty } => {
                let piece = match ty {
                    WheyType::Reference { .. } => pattern.clone(),
                    _ => String::from_str("&").concat(pattern.as_str()),
                };
                r.push(piece);
                assert(string_texts(r@) =~= string_texts(before).push(piece@));
            },
            WheyFnArg::Receiver { .. } => {},
        }
        i = i + 1;
    }
    assert(inputs@.take(n as int) =~= inputs@);
    r
}

/// The field types of a method's inputs joined by `, `, and whether it takes
/// any input besides its receiver.
pub(crate) fn input_types_string(inputs: &Vec<WheyFnArg>) -> (r: (String, bool))
    ensures
        r.0@ == input_types_text(inputs@),
        r.1 == takes_arguments(inputs@),
{
    let parts = input_type_strings(inputs);
    proof {
        lemma_typed_inputs(inputs@);
    }
    (join_texts(&parts, ", "), parts.len() > 0)
}

/// A method's inputs as they are handed on, joined by `, `.
pub(crate) fn input_names_string(inputs: &Vec<WheyFnArg>) -> (r: String)
    ensures
        r@ == joined(input_name_texts(inputs@), ", "@),
{
    let parts = input_name_strings(inputs);
    join_texts(&parts, ", ")
}

/// Whether a method takes an input besides its receiver.
pub(crate) fn has_inputs(inputs: &Vec<WheyFnArg>) -> (r: bool)
    ensures
        r == takes_arguments(inputs@),
{
    let n = inputs.len();
    let mut i: usize = 0;
    while i < n
        invariant
            n == inputs@.len(),
            i <= n,
            forall|j: int| 0 <= j < i ==> !(#[trigger] inputs@[j] is Typed),
        decreases n - i,
    {
        match &inputs[i] {
            WheyFnArg::Receiver { .. } => {},
            WheyFnArg::Typed { .. } => {
                assert(inputs@[i as int] is Typed);
                return true;
            },
        }
        i = i + 1;
    }
    false
}

/// The fields of the testing struct for one method: the expected and the
/// recorded number of calls; where the method takes inputs, the input
/// comparisons and how often each is still to be used; where it returns a
/// value, the default generator, the stored generators and how often each is
/// still to be used.
pub open spec fn fields_text(method: WheyMethod, lifetimes: Seq<String>) -> Seq<Seq<char>> {
    let ident = method.ident@;
    let inputs = input_types_text(method.inputs@);
    seq![
        "expected_calls_"@ + ident + ": std::sync::Mutex<std::option::Option<u32>>"@,
        "recorded_calls_"@ + ident + ": std::sync::Mutex<u32>"@,
    ] + (if takes_arguments(method.inputs@) {
        seq![
            "expected_input_times_"@ + ident + ": std::sync::Mutex<std::vec::Vec<u32>>"@,
            "expected_input_"@ + ident
                + ": std::sync::Mutex<std::vec::Vec<std::boxed::Box<dyn Fn("@ + inputs
                + ") -> bool + Send + Sync>>>"@,
        ]
    } else {
        seq![]
    }) + match method.output {
        Some(ty) => {
            let returned = return_type_text(ty, lifetimes);
            seq![
                "default_generator_"@ + ident
                    + ": std::sync::Mutex<std::option::Option<std::boxed::Box<dyn Fn("@ + inputs
                    + ") -> "@ + returned + " + Send + Sync>>>"@,
                "returned_times_"@ + ident + ": std::sync::Mutex<std::vec::Vec<u32>>"@,
                "returned_"@ + ident + ": std::sync::Mutex<std::vec::Vec<std::boxed::Box<dyn Fn("@
                    + inputs + ") -> "@ + returned + " + Send + Sync>>>"@,
            ]
        },
        None => seq![],
    }
}

/// The fields of the testing struct for `method`, written out.
pub fn quote_fields(method: &WheyMethod, lifetimes: &Vec<String>) -> (r: Vec<String>)
    ensures
        string_texts(r@) == fields_text(*method, lifetimes@),
{
    let ident = method.ident.as_str();
    let mut fields: Vec<String> = Vec::new();
    fields.push(expected_calls_field(ident).concat(": std::sync::Mutex<std::option::Option<u32>>"));
    fields.push(recorded_calls_field(ident).concat(": std::sync::Mutex<u32>"));
    let (inputs, takes) = input_types_string(&method.inputs);
    if takes {
        fields.push(expected_input_times_field(ident).concat(": std::sync::Mutex<std::vec::Vec<u32>>"));
        fields.push(
            expected_input_field(ident).concat(
                ": std::sync::Mutex<std::vec::Vec<std::boxed::Box<dyn Fn(",
            ).concat(inputs.as_str()).concat(") -> bool + Send + Sync>>>"),
        );
    }
    match &method.output {
        Some(ty) => {
            let returned = field_return_type(ty, lifetimes);
            fields.push(
                default_generator_field(ident).concat(
                    ": std::sync::Mutex<std::option::Option<std::boxed::Box<dyn Fn(",
                ).concat(inputs.as_str()).concat(") -> ").concat(returned.as_str()).concat(
                    " + Send + Sync>>>",
                ),
            );
            fields.push(returned_times_field(ident).concat(": std::sync::Mutex<std::vec::Vec<u32>>"));
            fields.push(
                returned_field(ident).concat(
                    ": std::sync::Mutex<std::vec::Vec<std::boxed::Box<dyn Fn(",
                ).concat(inputs.as_str()).concat(") -> ").concat(returned.as_str()).concat(
                    " + Send + Sync>>>",
                ),
            );
        },
        None => {},
    }
    assert(string_texts(fields@) =~= fields_text(*method, lifetimes@));
    fields
}

/// A field set to its default value.
pub open spec fn initializer_text(field: Seq<char>) -> Seq<char> {
    field + ": std::default::Default::default()"@
}

/// The initializers of the fields of `fields_text`, in the same order.
pub open spec fn initializers_text(method: WheyMethod) -> Seq<Seq<char>> {
    let ident = method.ident@;
    seq![
        initializer_text("expected_calls_"@ + ident),
        initializer_text("recorded_calls_"@ + ident),
    ] + (if takes_arguments(method.inputs@) {
        seq![
            initializer_text("expected_input_times_"@ + ident),
            initializer_text("expected_input_"@ + ident),
        ]
    } else {
        seq![]
    }) + (if method.output is Some {
        seq![
            initializer_text("default_generator_"@ + ident),
            initializer_text("returned_times_"@ + ident),
            initializer_text("returned_"@ + ident),
        ]
    } else {
        seq![]
    })
}

/// The initializers of the fields of the testing struct for `method`, each
/// field set to its default value.
pub fn quote_field_initializers(method: &WheyMethod) -> (r: Vec<String>)
    ensures
        string_texts(r@) == initializers_text(*method),
{
    let ident = method.ident.as_str();
    let default = ": std::default::Default::default()";
    let mut initializers: Vec<String> = Vec::new();
    initializers.push(expected_calls_field(ident).concat(default));
    initializers.push(recorded_calls_field(ident).concat(default));
    if has_inputs(&method.inputs) {
        initializers.push(expected_input_times_field(ident).concat(default));
        initializers.push(expected_input_field(ident).concat(default));
    }
    match &method.output {
        Some(_) => {
            initializers.push(default_generator_field(ident).concat(default));
            initializers.push(returned_times_field(ident).concat(default));
            initializers.push(returned_field(ident).concat(default));
        },
        None => {},
    }
    assert(string_texts(initializers@) =~= initializers_text(*method));
    initializers
}

} // verus!
