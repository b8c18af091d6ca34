//! What holds of every testing struct the mock generator writes and every
//! context it reads.
use vstd::prelude::*;
use super::attributes::{AttributeKind, WheyContextAttribute, attributes_except, attributes_of, is_of_kind};
use super::fields::{
    WheyMethod, fields_text, initializer_text, initializers_text, input_types_text, return_type_text,
    takes_arguments,
};
use super::mock::{mock_fields, mock_initializers};

verus! {

/// The names of the fields of the testing struct for one method, in the
/// order in which they are declared.
pub open spec fn field_names(method: WheyMethod) -> Seq<Seq<char>> {
    let ident = method.ident@;
    seq!["expected_calls_"@ + ident, "recorded_calls_"@ + ident] + (if takes_arguments(
        method.inputs@,
    ) {
        seq!["expected_input_times_"@ + ident, "expected_input_"@ + ident]
    } else {
        seq![]
    }) + (if method.output is Some {
        seq!["default_generator_"@ + ident, "returned_times_"@ + ident, "returned_"@ + ident]
    } else {
        seq![]
    })
}

/// The names of the fields for all methods.
pub open spec fn mock_field_names(methods: Seq<WheyMethod>) -> Seq<Seq<char>>
    decreases methods.len(),
{
    if methods.len() == 0 {
        seq![]
    } else {
        mock_field_names(methods.drop_last()) + field_names(methods.last())
    }
}

/// Whether `field` declares the field `name`.
pub open spec fn declares(field: Seq<char>, name: Seq<char>) -> bool {
    field.len() >= name.len() + 2 && field.take(name.len() + 2int) == name + ": "@
}

proof fn lemma_declares(name: Seq<char>, rest: Seq<char>)
    requires
        rest.len() >= 2,
        rest.take(2) == ": "@,
    ensures
        declares(name + rest, name),
{
    assert((name + rest).take(name.len() + 2int) =~= name + rest.take(2));
}

/// Every field that the testing struct declares for a method is
/// initialized by its constructor, in the same order, and nothing else is.
pub proof fn law_every_field_is_initialized(method: WheyMethod, lifetimes: Seq<String>)
    ensures
        fields_text(method, lifetimes).len() == field_names(method).len(),
        initializers_text(method).len() == field_names(method).len(),
        forall|i: int|
            0 <= i < field_names(method).len() ==> declares(
                #[trigger] fields_text(method, lifetimes)[i],
                field_names(method)[i],
            ) && initializers_text(method)[i] == initializer_text(field_names(method)[i]),
{
    let fields = fields_text(method, lifetimes);
    let names = field_names(method);
    let ident = method.ident@;
    let inputs = input_types_text(method.inputs@);
    reveal_strlit(": ");
    reveal_strlit(": std::sync::Mutex<std::option::Option<u32>>");
    reveal_strlit(": std::sync::Mutex<u32>");
    reveal_strlit(": std::sync::Mutex<std::vec::Vec<u32>>");
    reveal_strlit(": std::sync::Mutex<std::vec::Vec<std::boxed::Box<dyn Fn(");
    reveal_strlit(": std::sync::Mutex<std::option::Option<std::boxed::Box<dyn Fn(");
    let calls = ": std::sync::Mutex<std::option::Option<u32>>"@;
    let count = ": std::sync::Mutex<u32>"@;
    let times = ": std::sync::Mutex<std::vec::Vec<u32>>"@;
    let stored = ": std::sync::Mutex<std::vec::Vec<std::boxed::Box<dyn Fn("@;
    let default = ": std::sync::Mutex<std::option::Option<std::boxed::Box<dyn Fn("@;
    assert(calls.take(2) =~= ": "@);
    assert(count.take(2) =~= ": "@);
    assert(times.take(2) =~= ": "@);
    assert(stored.take(2) =~= ": "@);
    assert(default.take(2) =~= ": "@);
    let with_inputs = stored + inputs + ") -> bool + Send + Sync>>>"@;
    assert(with_inputs.take(2) =~= ": "@);
    let a = seq!["expected_calls_"@ + ident + calls, "recorded_calls_"@ + ident + count];
    let an = seq!["expected_calls_"@ + ident, "recorded_calls_"@ + ident];
    lemma_declares(an[0], calls);
    lemma_declares(an[1], count);
    let takes = takes_arguments(method.inputs@);
    let b = if takes {
        seq!["expected_input_times_"@ + ident + times, "expected_input_"@ + ident + with_inputs]
    } else {
        seq![]
    };
    let bn = if takes {
        seq!["expected_input_times_"@ + ident, "expected_input_"@ + ident]
    } else {
        seq![]
    };
    if takes {
        lemma_declares(bn[0], times);
        lemma_declares(bn[1], with_inputs);
    }
    let cn = if method.output is Some {
        seq!["default_generator_"@ + ident, "returned_times_"@ + ident, "returned_"@ + ident]
    } else {
        seq![]
    };
    let c = match method.output {
        Some(ty) => {
            let returned = return_type_text(ty, lifetimes);
            let with_default = default + inputs + ") -> "@ + returned + " + Send + Sync>>>"@;
            let with_stored = stored + inputs + ") -> "@ + returned + " + Send + Sync>>>"@;
            assert(with_default.take(2) =~= ": "@);
            assert(with_stored.take(2) =~= ": "@);
            lemma_declares(cn[0], with_default);
            lemma_declares(cn[1], times);
            lemma_declares(cn[2], with_stored);
            seq![cn[0] + with_default, cn[1] + times, cn[2] + with_stored]
        },
        None => seq![],
    };
    if takes {
        assert(b[1] =~= "expected_input_"@ + ident
            + ": std::sync::Mutex<std::vec::Vec<std::boxed::Box<dyn Fn("@ + inputs
            + ") -> bool + Send + Sync>>>"@);
    }
    match method.output {
        Some(ty) => {
            let returned = return_type_text(ty, lifetimes);
            assert(c[0] =~= "default_generator_"@ + ident
                + ": std::sync::Mutex<std::option::Option<std::boxed::Box<dyn Fn("@ + inputs
                + ") -> "@ + returned + " + Send + Sync>>>"@);
            assert(c[2] =~= "returned_"@ + ident
                + ": std::sync::Mutex<std::vec::Vec<std::boxed::Box<dyn Fn("@ + inputs + ") -> "@
                + returned + " + Send + Sync>>>"@);
        },
        None => {},
    }
    assert(fields =~= a + b + c);
    assert(names =~= an + bn + cn);
    assert(initializers_text(method) =~= an.map_values(|x: Seq<char>| initializer_text(x))
        + bn.map_values(|x: Seq<char>| initializer_text(x)) + cn.map_values(
        |x: Seq<char>| initializer_text(x),
    ));
    assert forall|i: int| 0 <= i < names.len() implies declares(
        #[trigger] fields[i],
        names[i],
    ) && initializers_text(method)[i] == initializer_text(names[i]) by {
        if i < 2 {
            assert(fields[i] == a[i] && names[i] == an[i]);
        } else if i < 2 + b.len() {
            assert(fields[i] == b[i - 2] && names[i] == bn[i - 2]);
        } else {
            assert(fields[i] == c[i - 2 - b.len()] && names[i] == cn[i - 2 - b.len()]);
        }
    }
}

/// The constructor of a testing struct initializes every field that the
/// struct declares, in the same order, over all methods of the trait.
pub proof fn law_testing_struct_initializes_all_fields(
    methods: Seq<WheyMethod>,
    lifetimes: Seq<String>,
)
    ensures
        mock_fields(methods, lifetimes).len() == mock_field_names(methods).len(),
        mock_initializers(methods).len() == mock_field_names(methods).len(),
        forall|i: int|
            0 <= i < mock_field_names(methods).len() ==> declares(
                #[trigger] mock_fields(methods, lifetimes)[i],
                mock_field_names(methods)[i],
            ) && mock_initializers(methods)[i] == initializer_text(mock_field_names(methods)[i]),
    decreases methods.len(),
{
    if methods.len() > 0 {
        let before = methods.drop_last();
        let last = methods.last();
        law_testing_struct_initializes_all_fields(before, lifetimes);
        law_every_field_is_initialized(last, lifetimes);
        let names = mock_field_names(methods);
        let n = mock_field_names(before).len();
        assert forall|i: int| 0 <= i < names.len() implies declares(
            #[trigger] mock_fields(methods, lifetimes)[i],
            names[i],
        ) && mock_initializers(methods)[i] == initializer_text(names[i]) by {
            if i < n {
                assert(mock_fields(methods, lifetimes)[i] == mock_fields(before, lifetimes)[i]);
                assert(mock_initializers(methods)[i] == mock_initializers(before)[i]);
                assert(names[i] == mock_field_names(before)[i]);
            } else {
                assert(mock_fields(methods, lifetimes)[i] == fields_text(last, lifetimes)[i - n]);
                assert(mock_initializers(methods)[i] == initializers_text(last)[i - n]);
                assert(names[i] == field_names(last)[i - n]);
            }
        }
    }
}

/// Taking the attributes of a kind off a context's struct loses none: each
/// attribute is either taken or stays, and none of the kind stays.
pub proof fn law_attributes_taken_or_kept(attrs: Seq<WheyContextAttribute>, kind: AttributeKind)
    ensures
        attributes_of(attrs, kind).len() + attributes_except(attrs, kind).len() == attrs.len(),
        forall|i: int|
            0 <= i < attributes_except(attrs, kind).len() ==> !is_of_kind(
                #[trigger] attributes_except(attrs, kind)[i],
                kind,
            ),
    decreases attrs.len(),
{
    if attrs.len() > 0 {
        let before = attributes_except(attrs.drop_last(), kind);
        law_attributes_taken_or_kept(attrs.drop_last(), kind);
        assert forall|i: int| 0 <= i < attributes_except(attrs, kind).len() implies !is_of_kind(
            #[trigger] attributes_except(attrs, kind)[i],
            kind,
        ) by {
            if i < before.len() {
                assert(attributes_except(attrs, kind)[i] == before[i]);
            }
        }
    }
}

} // verus!
