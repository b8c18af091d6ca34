//! The statements that the attributes of a whey context and the whey macros
//! expand to.
use vstd::prelude::*;
use super::model::{WheyExpectation, WheyPath, join_texts, joined, string_texts};
use super::names::{
    MockedTraitDefinition, default_return_method, expect_calls_method, lemma_renamed_text,
    renamed_text,
    store_expected_input_method, store_return_method,
};

verus! {

/// `mock_default_return` on a context: a default return generator for a
/// method of a mocked trait.
pub struct WheyContextDefaultReturn {
    pub expected_mock: WheyPath,
    pub method: String,
    pub generator: WheyExpectation,
}

impl WheyContextDefaultReturn {
    pub open spec fn spec_quote(&self) -> Seq<char> {
        "curds_core_macro::mock_default_return!(self ~ "@ + self.expected_mock.spec_text() + " ~ "@
            + self.method@ + ", "@ + self.generator.spec_text() + ");"@
    }

    /// The macro call that sets the default return on the context itself.
    pub fn quote(self) -> (r: String)
        ensures
            r@ == self.spec_quote(),
    {
        String::from_str("curds_core_macro::mock_default_return!(self ~ ").concat(
            self.expected_mock.text().as_str(),
        ).concat(" ~ ").concat(self.method.as_str()).concat(", ").concat(
            self.generator.quote().as_str(),
        ).concat(");")
    }
}

/// `mock_input` on a context: an input comparison, to be used a number of
/// times.
pub struct WheyContextInputComparison {
    pub expected_mock: WheyPath,
    pub method: String,
    pub comparison: WheyExpectation,
    pub times: String,
}

impl WheyContextInputComparison {
    pub open spec fn spec_quote(&self) -> Seq<char> {
        "curds_core_macro::mock_input!(self ~ "@ + self.expected_mock.spec_text() + " ~ "@
            + self.method@ + ", "@ + self.comparison.spec_text() + ", "@ + self.times@ + ");"@
    }

    /// The macro call that stores the comparison on the context itself.
    pub fn quote(self) -> (r: String)
        ensures
            r@ == self.spec_quote(),
    {
        String::from_str("curds_core_macro::mock_input!(self ~ ").concat(
            self.expected_mock.text().as_str(),
        ).concat(" ~ ").concat(self.method.as_str()).concat(", ").concat(
            self.comparison.quote().as_str(),
        ).concat(", ").concat(self.times.as_str()).concat(");")
    }
}

/// `mock_return` on a context: a return generator, to be used a number of
/// times.
pub struct WheyContextReturnGenerator {
    pub expected_mock: WheyPath,
    pub method: String,
    pub generator: WheyExpectation,
    pub times: String,
}

impl WheyContextReturnGenerator {
    pub open spec fn spec_quote(&self) -> Seq<char> {
        "curds_core_macro::mock_return!(self ~ "@ + self.expected_mock.spec_text() + " ~ "@
            + self.method@ + ", "@ + self.generator.spec_text() + ", "@ + self.times@ + ");"@
    }

    /// The macro call that stores the generator on the context itself.
    pub fn quote(self) -> (r: String)
        ensures
            r@ == self.spec_quote(),
    {
        String::from_str("curds_core_macro::mock_return!(self ~ ").concat(
            self.expected_mock.text().as_str(),
        ).concat(" ~ ").concat(self.method.as_str()).concat(", ").concat(
            self.generator.quote().as_str(),
        ).concat(", ").concat(self.times.as_str()).concat(");")
    }
}

/// One stage of a sequence: a call that must come next, with an optional
/// input comparison and return generator.
pub struct WheySequenceStage {
    pub expected_mock: WheyPath,
    pub method: String,
    pub input_comparison: Option<WheyExpectation>,
    pub return_generator: Option<WheyExpectation>,
}

impl WheySequenceStage {
    /// The stage written out for the context `context` (`self` when none),
    /// with `core` the path of the core of the mocked trait.
    pub open spec fn spec_quote(&self, context: Seq<char>, core: Seq<char>) -> Seq<char> {
        let load = "{ let synchronizer: std::rc::Rc<std::sync::RwLock<curds_core_abstraction::whey::WheySynchronizer>> = "@
            + context + ".generate(); synchronizer.write().unwrap().load(std::any::TypeId::of::<"@
            + core + ">(), String::from(\""@ + self.method@ + "\")); }"@;
        let input = match self.input_comparison {
            Some(comparison) => " curds_core_macro::mock_input!("@ + context + " ~ "@
                + self.expected_mock.spec_text() + " ~ "@ + self.method@ + ", "@
                + comparison.spec_text() + ", 1);"@,
            None => seq![],
        };
        let output = match self.return_generator {
            Some(generator) => " curds_core_macro::mock_return!("@ + context + " ~ "@
                + self.expected_mock.spec_text() + " ~ "@ + self.method@ + ", "@
                + generator.spec_text() + ", 1);"@,
            None => seq![],
        };
        load + input + output
    }

    /// The statements of the stage: load the call into the synchronizer,
    /// then store the comparison and the generator, each for one call.
    pub fn quote(self, context: Option<&str>) -> (r: String)
        requires
            self.expected_mock.segments@.len() > 0,
        ensures
            r@ == self.spec_quote(
                match context {
                    Some(c) => c@,
                    None => "self"@,
                },
                renamed_text(self.expected_mock, "WheyCore"@),
            ),
    {
        let context_text = match context {
            Some(c) => String::from_str(c),
            None => String::from_str("self"),
        };
        let core = MockedTraitDefinition::generate_core_name(&self.expected_mock);
        proof {
            lemma_renamed_text(self.expected_mock, "WheyCore"@, core);
        }
        let mock = self.expected_mock.text();
        let load = String::from_str(
            "{ let synchronizer: std::rc::Rc<std::sync::RwLock<curds_core_abstraction::whey::WheySynchronizer>> = ",
        ).concat(context_text.as_str()).concat(
            ".generate(); synchronizer.write().unwrap().load(std::any::TypeId::of::<",
        ).concat(core.text().as_str()).concat(">(), String::from(\"").concat(
            self.method.as_str(),
        ).concat("\")); }");
        let input = match &self.input_comparison {
            Some(comparison) => String::from_str(" curds_core_macro::mock_input!(").concat(
                context_text.as_str(),
            ).concat(" ~ ").concat(mock.as_str()).concat(" ~ ").concat(self.method.as_str()).concat(
                ", ",
            ).concat(comparison.quote().as_str()).concat(", 1);"),
            None => String::new(),
        };
        let output = match &self.return_generator {
            Some(generator) => String::from_str(" curds_core_macro::mock_return!(").concat(
                context_text.as_str(),
            ).concat(" ~ ").concat(mock.as_str()).concat(" ~ ").concat(self.method.as_str()).concat(
                ", ",
            ).concat(generator.quote().as_str()).concat(", 1);"),
            None => String::new(),
        };
        load.concat(input.as_str()).concat(output.as_str())
    }
}

/// The stages quoted for a context and joined by spaces.
pub open spec fn stages_text(stages: Seq<WheySequenceStage>, context: Seq<char>) -> Seq<char> {
    joined(
        Seq::new(
            stages.len(),
            |i: int| stages[i].spec_quote(context, renamed_text(stages[i].expected_mock, "WheyCore"@)),
        ),
        " "@,
    )
}

/// Quotes each stage for the context and joins them by spaces.
fn quote_stages(stages: Vec<WheySequenceStage>, context: Option<&str>) -> (r: String)
    requires
        forall|i: int| 0 <= i < stages@.len() ==> (#[trigger] stages@[i]).expected_mock.segments@.len()
            > 0,
    ensures
        r@ == stages_text(
            stages@,
            match context {
                Some(c) => c@,
                None => "self"@,
            },
        ),
{
    let ghost all = stages@;
    let ghost context_text = match context {
        Some(c) => c@,
        None => "self"@,
    };
    let mut quoted: Vec<String> = Vec::new();
    let mut rest = stages;
    let n = rest.len();
    let mut i: usize = 0;
    while i < n
        invariant
            n == all.len(),
            i <= n,
            rest@ == all.skip(i as int),
            context_text == (match context {
                Some(c) => c@,
                None => "self"@,
            }),
            forall|j: int| 0 <= j < all.len() ==> (#[trigger] all[j]).expected_mock.segments@.len() > 0,
            quoted@.len() == i,
            forall|j: int|
                0 <= j < i ==> (#[trigger] quoted@[j])@ == all[j].spec_quote(
                    context_text,
                    renamed_text(all[j].expected_mock, "WheyCore"@),
                ),
        decreases n - i,
    {
        let stage = rest.remove(0);
        assert(stage == all[i as int]);
        assert(rest@ =~= all.skip(i + 1));
        quoted.push(stage.quote(context));
        i = i + 1;
    }
    assert(string_texts(quoted@) =~= Seq::new(
        all.len(),
        |j: int| all[j].spec_quote(context_text, renamed_text(all[j].expected_mock, "WheyCore"@)),
    ));
    join_texts(&quoted, " ")
}

/// `mock_sequence` on a context: calls that must come in this order.
pub struct WheyContextSequence {
    pub stages: Vec<WheySequenceStage>,
}

impl WheyContextSequence {
    /// The stages, each for the context itself, one after the other.
    pub fn quote(self) -> (r: String)
        requires
            forall|i: int| 0 <= i < self.stages@.len() ==> (#[trigger] self.stages@[i]).expected_mock.segments@.len()
                > 0,
        ensures
            r@ == stages_text(self.stages@, "self"@),
    {
        quote_stages(self.stages, None)
    }
}

/// The `mock_sequence!` macro: calls on a named context that must come in
/// this order.
pub struct WheySequence {
    pub context: String,
    pub stages: Vec<WheySequenceStage>,
}

impl WheySequence {
    /// The stages, each for the named context, one after the other.
    pub fn quote(self) -> (r: String)
        requires
            forall|i: int| 0 <= i < self.stages@.len() ==> (#[trigger] self.stages@[i]).expected_mock.segments@.len()
                > 0,
        ensures
            r@ == stages_text(self.stages@, self.context@),
    {
        quote_stages(self.stages, Some(self.context.as_str()))
    }
}

/// The block that fetches a core or testing struct from a context and calls
/// one of its methods.
pub open spec fn core_call(context: Seq<char>, mock: Seq<char>, call: Seq<char>) -> Seq<char> {
    "{ let core: std::rc::Rc<std::sync::RwLock<"@ + mock + ">> = "@ + context
        + ".generate(); core.write().unwrap()."@ + call + "; }"@
}

fn quote_core_call(context: &str, mock: &str, call: &str) -> (r: String)
    ensures
        r@ == core_call(context@, mock@, call@),
{
    String::from_str("{ let core: std::rc::Rc<std::sync::RwLock<").concat(mock).concat(">> = ").concat(
        context,
    ).concat(".generate(); core.write().unwrap().").concat(call).concat("; }")
}

/// The `mock_default_return!` macro: a default return generator for a
/// method, set on the core of the mocked trait.
pub struct WheyDefaultReturn {
    pub context: String,
    pub expected_mock: WheyPath,
    pub method: String,
    pub generator: String,
}

impl WheyDefaultReturn {
    pub fn quote(self) -> (r: String)
        requires
            self.expected_mock.segments@.len() > 0,
        ensures
            r@ == core_call(
                self.context@,
                renamed_text(self.expected_mock, "WheyCore"@),
                "default_return_"@ + self.method@ + "(Box::new("@ + self.generator@ + "))"@,
            ),
    {
        let core = MockedTraitDefinition::generate_core_name(&self.expected_mock);
        proof {
            lemma_renamed_text(self.expected_mock, "WheyCore"@, core);
        }
        let call = default_return_method(self.method.as_str()).concat("(Box::new(").concat(
            self.generator.as_str(),
        ).concat("))");
        quote_core_call(self.context.as_str(), core.text().as_str(), call.as_str())
    }
}

/// The `mock_return!` macro: a return generator for a method, to be used a
/// number of times, stored on the core of the mocked trait.
pub struct WheyReturnGenerator {
    pub context: String,
    pub expected_mock: WheyPath,
    pub method: String,
    pub generator: String,
    pub times: String,
}

impl WheyReturnGenerator {
    pub fn quote(self) -> (r: String)
        requires
            self.expected_mock.segments@.len() > 0,
        ensures
            r@ == core_call(
                self.context@,
                renamed_text(self.expected_mock, "WheyCore"@),
                "store_return_"@ + self.method@ + "(Box::new("@ + self.generator@ + "), "@
                    + self.times@ + ")"@,
            ),
    {
        let core = MockedTraitDefinition::generate_core_name(&self.expected_mock);
        proof {
            lemma_renamed_text(self.expected_mock, "WheyCore"@, core);
        }
        let call = store_return_method(self.method.as_str()).concat("(Box::new(").concat(
            self.generator.as_str(),
        ).concat("), ").concat(self.times.as_str()).concat(")");
        quote_core_call(self.context.as_str(), core.text().as_str(), call.as_str())
    }
}

/// The `expect_calls!` macro: how many calls a method of a mock expects.
pub struct WheyExpectedCalls {
    pub context: String,
    pub expected_mock: WheyPath,
    pub method: String,
    pub times: String,
}

impl WheyExpectedCalls {
    pub fn quote(self) -> (r: String)
        requires
            self.expected_mock.segments@.len() > 0,
        ensures
            r@ == core_call(
                self.context@,
                renamed_text(self.expected_mock, "Testing"@),
                "expect_calls_"@ + self.method@ + "("@ + self.times@ + ")"@,
            ),
    {
        let testing = MockedTraitDefinition::generate_testing_name(&self.expected_mock);
        proof {
            lemma_renamed_text(self.expected_mock, "Testing"@, testing);
        }
        let call = expect_calls_method(self.method.as_str()).concat("(").concat(
            self.times.as_str(),
        ).concat(")");
        quote_core_call(self.context.as_str(), testing.text().as_str(), call.as_str())
    }
}

/// The `mock_input!` macro: an input comparison for a method, to be used a
/// number of times, on a named context or on `self`.
pub struct WheyInputComparison {
    pub context: Option<String>,
    pub expected_mock: WheyPath,
    pub method: String,
    pub comparison: WheyExpectation,
    pub times: String,
}

impl WheyInputComparison {
    pub fn quote(self) -> (r: String)
        requires
            self.expected_mock.segments@.len() > 0,
        ensures
            r@ == core_call(
                match self.context {
                    Some(c) => c@,
                    None => "self"@,
                },
                renamed_text(self.expected_mock, "Testing"@),
                "store_expected_input_"@ + self.method@ + "(Box::new("@
                    + self.comparison.spec_text() + "), "@ + self.times@ + ")"@,
            ),
    {
        let context = match &self.context {
            Some(c) => c.clone(),
            None => String::from_str("self"),
        };
        let testing = MockedTraitDefinition::generate_testing_name(&self.expected_mock);
        proof {
            lemma_renamed_text(self.expected_mock, "Testing"@, testing);
        }
        let call = store_expected_input_method(self.method.as_str()).concat("(Box::new(").concat(
            self.comparison.quote().as_str(),
        ).concat("), ").concat(self.times.as_str()).concat(")");
        quote_core_call(context.as_str(), testing.text().as_str(), call.as_str())
    }
}

/// The context of a whey test: its type and the name it is bound to.
pub struct WheyTestContext {
    pub context: String,
    pub name: String,
}

impl WheyTestContext {
    pub open spec fn spec_quote(&self) -> Seq<char> {
        "let mut "@ + self.name@ + " = "@ + self.context@ + "::construct();"@
    }

    /// The statement that constructs the context.
    pub fn quote(self) -> (r: String)
        ensures
            r@ == self.spec_quote(),
    {
        String::from_str("let mut ").concat(self.name.as_str()).concat(" = ").concat(
            self.context.as_str(),
        ).concat("::construct();")
    }
}

/// A whey test: a function whose body starts by constructing its context.
pub struct WheyTest {
    pub attributes: Vec<String>,
    pub visibility: String,
    pub signature: String,
    pub statements: Vec<String>,
}

impl WheyTest {
    /// The test function: marked `#[test]`, with its own attributes, and
    /// the context constructed before its statements.
    pub fn quote(self, context: WheyTestContext) -> (r: String)
        ensures
            r@ == "#[test] "@ + joined(string_texts(self.attributes@), " "@) + " "@
                + self.visibility@ + " "@ + self.signature@ + " { "@ + context.spec_quote() + " "@
                + joined(string_texts(self.statements@), " "@) + " }"@,
    {
        let context_text = context.quote();
        String::from_str("#[test] ").concat(join_texts(&self.attributes, " ").as_str()).concat(
            " ",
        ).concat(self.visibility.as_str()).concat(" ").concat(self.signature.as_str()).concat(
            " { ",
        ).concat(context_text.as_str()).concat(" ").concat(
            join_texts(&self.statements, " ").as_str(),
        ).concat(" }")
    }
}

} // verus!
