//! The expectation structs of a mock core: what one call of a method is
//! expected to receive and to return.
use vstd::prelude::*;
use crate::cron::text::{decimal_digits, decimal_string};
use super::fields::{WheyFnArg, WheyMethod};
use super::model::{join_texts, joined, string_texts};
use super::types::{WheyType, type_text};

verus! {

/// The expectation struct of one method of a mock core.
pub struct WheyMockExpectation {}

/// The types of a method's inputs other than its receiver, in their order.
pub open spec fn typed_input_types(inputs: Seq<WheyFnArg>) -> Seq<WheyType>
    decreases inputs.len(),
{
    if inputs.len() == 0 {
        seq![]
    } else {
        match inputs.last() {
            WheyFnArg::Typed { ty, .. } => typed_input_types(inputs.drop_last()).push(ty),
            WheyFnArg::Receiver { .. } => typed_input_types(inputs.drop_last()),
        }
    }
}

/// An input as an expectation holds it: a reference by the value it refers to.
pub open spec fn expectation_input_text(ty: WheyType) -> Seq<char> {
    match ty {
        WheyType::Reference { elem, .. } => type_text(*elem),
        _ => type_text(ty),
    }
}

/// An input as `consume` takes it: a mutable reference made shared.
pub open spec fn consume_input_text(ty: WheyType) -> Seq<char> {
    match ty {
        WheyType::Reference { lifetime, mutable, elem } => type_text(
            WheyType::Reference { lifetime, mutable: false, elem },
        ),
        _ => type_text(ty),
    }
}

/// The return type as an expectation holds it: a reference by the value it
/// refers to.
pub open spec fn expectation_return_text(ty: WheyType) -> Seq<char> {
    expectation_input_text(ty)
}

/// How `consume` reads the stored input at `index` of a comparison tuple
/// (or the single stored input where `indexed` is false): a value by its
/// field, a reference by a reference to it; other inputs are not compared.
pub open spec fn comparison_texts(types: Seq<WheyType>, indexed: bool) -> Seq<Seq<char>>
    decreases types.len(),
{
    if types.len() == 0 {
        seq![]
    } else {
        let accessor = if indexed {
            "self.input_comparison."@ + decimal_digits((types.len() - 1) as nat)
        } else {
            "self.input_comparison"@
        };
        comparison_texts(types.drop_last(), indexed) + match types.last() {
            WheyType::Path { .. } => seq![accessor],
            WheyType::Reference { .. } => seq!["&"@ + accessor],
            _ => seq![],
        }
    }
}

/// The fields of an expectation struct: how many calls are left, the
/// inputs to compare where the method takes any, the value to return where
/// it returns one.
pub open spec fn expectation_fields_text(method: WheyMethod) -> Seq<Seq<char>> {
    let types = typed_input_types(method.inputs@);
    seq!["times: std::cell::Cell<u32>"@] + (if types.len() > 0 {
        seq![
            "input_comparison: ("@ + joined(
                types.map_values(|t: WheyType| expectation_input_text(t)),
                ", "@,
            ) + ")"@,
        ]
    } else {
        seq![]
    }) + match method.output {
        Some(ty) => seq!["expected_return: "@ + expectation_return_text(ty)],
        None => seq![],
    }
}

/// The parameters of `consume`: the receiver as the method takes it, then
/// the expected inputs where there are any.
pub open spec fn consume_params_texts(method: WheyMethod) -> Seq<Seq<char>> {
    let types = typed_input_types(method.inputs@);
    (match method.inputs@[0] {
        WheyFnArg::Receiver { mutable, .. } => if mutable {
            seq!["&mut self"@]
        } else {
            seq!["&self"@]
        },
        WheyFnArg::Typed { .. } => seq![],
    }) + (if types.len() > 0 {
        seq![
            "expected: ("@ + joined(
                types.map_values(|t: WheyType| consume_input_text(t)),
                ", "@,
            ) + ")"@,
        ]
    } else {
        seq![]
    })
}

/// The statements of `consume`: compare the inputs, count the call, hand
/// out the stored return value.
pub open spec fn consume_body_texts(method: WheyMethod) -> Seq<Seq<char>> {
    let types = typed_input_types(method.inputs@);
    (if types.len() > 0 {
        seq![
            "let comparison = ("@ + joined(comparison_texts(types, types.len() > 1), ", "@)
                + ");"@,
            "assert_eq!(comparison, expected);"@,
        ]
    } else {
        seq![]
    }) + seq!["self.times.set(self.times.get() - 1);"@] + match method.output {
        Some(ty) => match ty {
            WheyType::Path { .. } => seq!["self.expected_return.clone()"@],
            WheyType::Reference { mutable, .. } => if mutable {
                seq!["&mut self.expected_return"@]
            } else {
                seq!["&self.expected_return"@]
            },
            _ => seq![],
        },
        None => seq![],
    }
}

/// The `consume` method of an expectation struct: it compares the inputs it
/// is given with the stored ones, counts the call and hands out the stored
/// return value.
pub open spec fn consume_text(method: WheyMethod) -> Seq<char> {
    let return_type = match method.output {
        Some(ty) => " -> "@ + type_text(ty),
        None => seq![],
    };
    "pub fn consume("@ + joined(consume_params_texts(method), ", "@) + ")"@ + return_type + " { "@
        + joined(consume_body_texts(method), " "@) + " }"@
}

/// The expectation struct of a method of the core `core_name`, written out.
pub open spec fn expectation_struct_text(method: WheyMethod, core_name: Seq<char>) -> Seq<char> {
    let name = core_name + "_"@ + method.ident@ + "_Expectation"@;
    "#[allow(non_camel_case_types)] struct "@ + name + " { "@ + joined(
        expectation_fields_text(method),
        ", "@,
    ) + " } impl "@ + name
        + " { pub fn is_consumed(&self) -> bool { self.times.get() == 0 } "@ + consume_text(
        method,
    ) + " }"@
}

fn typed_types_strings(inputs: &Vec<WheyFnArg>, consume: bool) -> (r: Vec<String>)
    ensures
        consume ==> string_texts(r@) == typed_input_types(inputs@).map_values(
            |t: WheyType| consume_input_text(t),
        ),
        !consume ==> string_texts(r@) == typed_input_types(inputs@).map_values(
            |t: WheyType| expectation_input_text(t),
        ),
{
    let mut r: Vec<String> = Vec::new();
    let n = inputs.len();
    let mut i: usize = 0;
    while i < n
        invariant
            n == inputs@.len(),
            i <= n,
            consume ==> string_texts(r@) == typed_input_types(inputs@.take(i as int)).map_values(
                |t: WheyType| consume_input_text(t),
            ),
            !consume ==> string_texts(r@) == typed_input_types(inputs@.take(i as int)).map_values(
                |t: WheyType| expectation_input_text(t),
            ),
        decreases n - i,
    {
        let ghost before = r@;
        let ghost types_before = typed_input_types(inputs@.take(i as int));
        let ghost after = inputs@.take(i + 1);
        assert(after.drop_last() =~= inputs@.take(i as int));
        assert(after.last() == inputs@[i as int]);
        match &inputs[i] {
            WheyFnArg::Typed { ty, .. } => {
                let piece = match ty {
                    WheyType::Reference { lifetime, mutable: _, elem } => {
                        if consume {
                            let mut text = String::from_str("&");
                            match lifetime {
                                Some(name) => {
                                    text.append("'");
                                    text.append(name.as_str());
                                    text.append(" ");
                                },
                                None => {},
                            }
                            text.append(elem.text().as_str());
                            assert(text@ == consume_input_text(*ty));
                            text
                        } else {
                            elem.text()
                        }
                    },
                    _ => ty.text(),
                };
                r.push(piece);
                let ghost types_after = types_before.push(*ty);
                assert(typed_input_types(after) == types_after);
                assert(string_texts(r@) =~= string_texts(before).push(piece@));
                if consume {
                    assert(string_texts(r@) =~= types_after.map_values(
                        |t: WheyType| consume_input_text(t),
                    ));
                } else {
                    assert(string_texts(r@) =~= types_after.map_values(
                        |t: WheyType| expectation_input_text(t),
                    ));
                }
            },
            WheyFnArg::Receiver { .. } => {},
        }
        i = i + 1;
    }
    assert(inputs@.take(n as int) =~= inputs@);
    r
}

impl WheyMockExpectation {
    /// The struct holding the expectations of one method of a core.
    pub fn expectation_name(ident: &str, core_name: &str) -> (r: String)
        ensures
            r@ == core_name@ + "_"@ + ident@ + "_Expectation"@,
    {
        String::from_str(core_name).concat("_").concat(ident).concat("_Expectation")
    }

    /// The inputs of a method as an expectation holds them, written out: a
    /// reference by the value it refers to; `None` where the method takes
    /// no input besides its receiver.
    pub fn parse_expectation_input_types(signature: &WheyMethod) -> (r: Option<Vec<String>>)
        ensures
            match r {
                Some(types) => typed_input_types(signature.inputs@).len() > 0 && string_texts(
                    types@,
                ) == typed_input_types(signature.inputs@).map_values(
                    |t: WheyType| expectation_input_text(t),
                ),
                None => typed_input_types(signature.inputs@).len() == 0,
            },
    {
        let types = typed_types_strings(&signature.inputs, false);
        assert(string_texts(types@).len() == types@.len());
        if types.len() > 0 {
            Some(types)
        } else {
            None
        }
    }

    /// The inputs of a method as `consume` takes them, written out: a
    /// mutable reference made shared; `None` where the method takes no input
    /// besides its receiver.
    pub fn parse_consume_input_types(signature: &WheyMethod) -> (r: Option<Vec<String>>)
        ensures
            match r {
                Some(types) => typed_input_types(signature.inputs@).len() > 0 && string_texts(
                    types@,
                ) == typed_input_types(signature.inputs@).map_values(
                    |t: WheyType| consume_input_text(t),
                ),
                None => typed_input_types(signature.inputs@).len() == 0,
            },
    {
        let types = typed_types_strings(&signature.inputs, true);
        assert(string_texts(types@).len() == types@.len());
        if types.len() > 0 {
            Some(types)
        } else {
            None
        }
    }

    /// The return type of a method as an expectation holds it, written out:
    /// a reference by the value it refers to; `None` where the method
    /// returns nothing.
    pub fn parse_expectation_return_type(signature: &WheyMethod) -> (r: Option<String>)
        ensures
            match signature.output {
                Some(ty) => r is Some && r->0@ == expectation_return_text(ty),
                None => r is None,
            },
    {
        match &signature.output {
            None => None,
            Some(ty) => match ty {
                WheyType::Reference { elem, .. } => Some(elem.text()),
                _ => Some(ty.text()),
            },
        }
    }

    /// The expectation struct of `item` for the core `core_name`: its fields
    /// and its `is_consumed` and `consume` methods.
    pub fn quote_struct(item: &WheyMethod, core_name: &str) -> (r: String)
        requires
            item.inputs@.len() > 0,
        ensures
            r@ == expectation_struct_text(*item, core_name@),
    {
        let name = Self::expectation_name(item.ident.as_str(), core_name);
        let fields = Self::quote_fields(item);
        let consume = Self::quote_consume(item);
        let mut r = String::from_str("#[allow(non_camel_case_types)] struct ");
        r.append(name.as_str());
        r.append(" { ");
        r.append(join_texts(&fields, ", ").as_str());
        r.append(" } impl ");
        r.append(name.as_str());
        r.append(" { pub fn is_consumed(&self) -> bool { self.times.get() == 0 } ");
        r.append(consume.as_str());
        r.append(" }");
        r
    }

    fn quote_fields(method: &WheyMethod) -> (r: Vec<String>)
        ensures
            string_texts(r@) == expectation_fields_text(*method),
    {
        let mut fields: Vec<String> = Vec::new();
        fields.push(String::from_str("times: std::cell::Cell<u32>"));
        match Self::parse_expectation_input_types(method) {
            Some(inputs) => {
                fields.push(
                    String::from_str("input_comparison: (").concat(
                        join_texts(&inputs, ", ").as_str(),
                    ).concat(")"),
                );
            },
            None => {},
        }
        match Self::parse_expectation_return_type(method) {
            Some(expected_return) => {
                fields.push(String::from_str("expected_return: ").concat(expected_return.as_str()));
            },
            None => {},
        }
        assert(string_texts(fields@) =~= expectation_fields_text(*method));
        fields
    }

    fn comparison_strings(inputs: &Vec<WheyFnArg>, indexed: bool) -> (r: Vec<String>)
        ensures
            string_texts(r@) == comparison_texts(typed_input_types(inputs@), indexed),
    {
        let mut r: Vec<String> = Vec::new();
        let mut index: usize = 0;
        let n = inputs.len();
        let mut i: usize = 0;
        while i < n
            invariant
                n == inputs@.len(),
                i <= n,
                index == typed_input_types(inputs@.take(i as int)).len(),
                string_texts(r@) == comparison_texts(
                    typed_input_types(inputs@.take(i as int)),
                    indexed,
                ),
            decreases n - i,
        {
            let ghost before = r@;
            let ghost types_before = typed_input_types(inputs@.take(i as int));
            let ghost after = inputs@.take(i + 1);
            assert(after.drop_last() =~= inputs@.take(i as int));
            assert(after.last() == inputs@[i as int]);
            proof {
                lemma_typed_len(inputs@.take(i as int));
            }
            match &inputs[i] {
                WheyFnArg::Typed { ty, .. } => {
                    let ghost types_after = types_before.push(*ty);
                    assert(typed_input_types(after) == types_after);
                    assert(types_after.drop_last() =~= types_before);
                    let accessor = if indexed {
                        String::from_str("self.input_comparison.").concat(
                            decimal_string(index as u64).as_str(),
                        )
                    } else {
                        String::from_str("self.input_comparison")
                    };
                    match ty {
                        WheyType::Path { .. } => {
                            r.push(accessor);
                        },
                        WheyType::Reference { .. } => {
                            r.push(String::from_str("&").concat(accessor.as_str()));
                        },
                        _ => {},
                    }
                    assert(string_texts(r@) =~= comparison_texts(types_after, indexed));
                    index = index + 1;
                },
                WheyFnArg::Receiver { .. } => {},
            }
            i = i + 1;
        }
        assert(inputs@.take(n as int) =~= inputs@);
        r
    }

    fn quote_consume(method: &WheyMethod) -> (r: String)
        requires
            method.inputs@.len() > 0,
        ensures
            r@ == consume_text(*method),
    {
        let mut params: Vec<String> = Vec::new();
        match &method.inputs[0] {
            WheyFnArg::Receiver { reference: _, mutable } => {
                if *mutable {
                    params.push(String::from_str("&mut self"));
                } else {
                    params.push(String::from_str("&self"));
                }
            },
            WheyFnArg::Typed { .. } => {},
        }
        let mut body: Vec<String> = Vec::new();
        match Self::parse_consume_input_types(method) {
            Some(types_strings) => {
                params.push(
                    String::from_str("expected: (").concat(
                        join_texts(&types_strings, ", ").as_str(),
                    ).concat(")"),
                );
                let indexed = types_strings.len() > 1;
                assert(string_texts(types_strings@).len() == types_strings@.len());
                let comparison = Self::comparison_strings(&method.inputs, indexed);
                body.push(
                    String::from_str("let comparison = (").concat(
                        join_texts(&comparison, ", ").as_str(),
                    ).concat(");"),
                );
                body.push(String::from_str("assert_eq!(comparison, expected);"));
            },
            None => {},
        }
        assert(string_texts(params@) =~= consume_params_texts(*method));
        body.push(String::from_str("self.times.set(self.times.get() - 1);"));
        let mut return_type = String::new();
        match &method.output {
            None => {},
            Some(ty) => {
                return_type = String::from_str(" -> ").concat(ty.text().as_str());
                match ty {
                    WheyType::Path { .. } => {
                        body.push(String::from_str("self.expected_return.clone()"));
                    },
                    WheyType::Reference { mutable, .. } => {
                        if *mutable {
                            body.push(String::from_str("&mut self.expected_return"));
                        } else {
                            body.push(String::from_str("&self.expected_return"));
                        }
                    },
                    _ => {},
                }
            },
        }
        assert(string_texts(body@) =~= consume_body_texts(*method));
        let mut r = String::from_str("pub fn consume(");
        r.append(join_texts(&params, ", ").as_str());
        r.append(")");
        r.append(return_type.as_str());
        r.append(" { ");
        r.append(join_texts(&body, " ").as_str());
        r.append(" }");
        r
    }
}

proof fn lemma_typed_len(inputs: Seq<WheyFnArg>)
    ensures
        typed_input_types(inputs).len() <= inputs.len(),
    decreases inputs.len(),
{
    if inputs.len() > 0 {
        lemma_typed_len(inputs.drop_last());
    }
}

} // verus!
