//! The attributes of a whey context: which traits it mocks and what its
//! mocks are set up with, taken off the context's struct.
use vstd::prelude::*;
use super::context::{
    WheyContextDefaultReturn, WheyContextInputComparison, WheyContextReturnGenerator,
    WheyContextSequence,
};
use super::names::MockedTraitDefinition;

verus! {

/// A mocked trait of a context, with how long its mock lives.
pub enum WheyMockedTrait {
    /// `mocks`: a mock for each service that asks for one.
    Transient(MockedTraitDefinition),
    /// `mocks_singleton`: one mock shared by the context.
    Singleton(MockedTraitDefinition),
}

/// An attribute of the struct of a whey context, its arguments read.
pub enum WheyContextAttribute {
    /// `#[mocks(Trait)]`.
    Mocks(MockedTraitDefinition),
    /// `#[mocks_singleton(Trait)]`.
    MocksSingleton(MockedTraitDefinition),
    /// `#[mock_default_return(..)]`.
    MockDefaultReturn(WheyContextDefaultReturn),
    /// `#[mock_return(..)]`.
    MockReturn(WheyContextReturnGenerator),
    /// `#[mock_input(..)]`.
    MockInput(WheyContextInputComparison),
    /// `#[mock_sequence(..)]`.
    MockSequence(WheyContextSequence),
    /// Any other attribute, written out.
    Other(String),
}

/// The struct of a whey context: its attributes and the rest of it,
/// written out.
pub struct WheyContextItem {
    pub attrs: Vec<WheyContextAttribute>,
    pub text: String,
}

/// The kinds of attributes that a context reads.
pub enum AttributeKind {
    Mocks,
    DefaultReturn,
    Return,
    Input,
    Sequence,
}

/// Whether an attribute is of a kind.
pub open spec fn is_of_kind(attr: WheyContextAttribute, kind: AttributeKind) -> bool {
    match kind {
        AttributeKind::Mocks => attr is Mocks || attr is MocksSingleton,
        AttributeKind::DefaultReturn => attr is MockDefaultReturn,
        AttributeKind::Return => attr is MockReturn,
        AttributeKind::Input => attr is MockInput,
        AttributeKind::Sequence => attr is MockSequence,
    }
}

/// The attributes of a kind, in their order.
pub open spec fn attributes_of(attrs: Seq<WheyContextAttribute>, kind: AttributeKind) -> Seq<
    WheyContextAttribute,
>
    decreases attrs.len(),
{
    if attrs.len() == 0 {
        seq![]
    } else if is_of_kind(attrs.last(), kind) {
        attributes_of(attrs.drop_last(), kind).push(attrs.last())
    } else {
        attributes_of(attrs.drop_last(), kind)
    }
}

/// The attributes of other kinds, in their order.
pub open spec fn attributes_except(attrs: Seq<WheyContextAttribute>, kind: AttributeKind) -> Seq<
    WheyContextAttribute,
>
    decreases attrs.len(),
{
    if attrs.len() == 0 {
        seq![]
    } else if is_of_kind(attrs.last(), kind) {
        attributes_except(attrs.drop_last(), kind)
    } else {
        attributes_except(attrs.drop_last(), kind).push(attrs.last())
    }
}

proof fn lemma_attributes_of_kind(attrs: Seq<WheyContextAttribute>, kind: AttributeKind)
    ensures
        forall|i: int|
            0 <= i < attributes_of(attrs, kind).len() ==> is_of_kind(
                #[trigger] attributes_of(attrs, kind)[i],
                kind,
            ),
    decreases attrs.len(),
{
    if attrs.len() > 0 {
        let before = attributes_of(attrs.drop_last(), kind);
        lemma_attributes_of_kind(attrs.drop_last(), kind);
        assert forall|i: int| 0 <= i < attributes_of(attrs, kind).len() implies is_of_kind(
            #[trigger] attributes_of(attrs, kind)[i],
            kind,
        ) by {
            if i < before.len() {
                assert(attributes_of(attrs, kind)[i] == before[i]);
            }
        }
    }
}

fn is_kind(attr: &WheyContextAttribute, kind: &AttributeKind) -> (r: bool)
    ensures
        r == is_of_kind(*attr, *kind),
{
    match kind {
        AttributeKind::Mocks => match attr {
            WheyContextAttribute::Mocks(_) | WheyContextAttribute::MocksSingleton(_) => true,
            _ => false,
        },
        AttributeKind::DefaultReturn => match attr {
            WheyContextAttribute::MockDefaultReturn(_) => true,
            _ => false,
        },
        AttributeKind::Return => match attr {
            WheyContextAttribute::MockReturn(_) => true,
            _ => false,
        },
        AttributeKind::Input => match attr {
            WheyContextAttribute::MockInput(_) => true,
            _ => false,
        },
        AttributeKind::Sequence => match attr {
            WheyContextAttribute::MockSequence(_) => true,
            _ => false,
        },
    }
}

/// Takes the attributes of a kind off `attrs`: they are returned, and the
/// others stay, each list in its order.
fn take_attributes(attrs: &mut Vec<WheyContextAttribute>, kind: AttributeKind) -> (r: Vec<
    WheyContextAttribute,
>)
    ensures
        r@ == attributes_of(old(attrs)@, kind),
        final(attrs)@ == attributes_except(old(attrs)@, kind),
{
    let ghost orig = attrs@;
    let mut kept: Vec<WheyContextAttribute> = Vec::new();
    let mut taken: Vec<WheyContextAttribute> = Vec::new();
    let ghost mut k: int = 0;
    while attrs.len() > 0
        invariant
            0 <= k <= orig.len(),
            attrs@ == orig.skip(k),
            kept@ == attributes_except(orig.take(k), kind),
            taken@ == attributes_of(orig.take(k), kind),
        decreases attrs@.len(),
    {
        let attr = attrs.remove(0);
        proof {
            assert(attr == orig[k]);
            let next = orig.take(k + 1);
            assert(next.drop_last() =~= orig.take(k));
            assert(next.last() == orig[k]);
            assert(orig.skip(k + 1) =~= orig.skip(k).skip(1));
        }
        if is_kind(&attr, &kind) {
            taken.push(attr);
        } else {
            kept.push(attr);
        }
        proof {
            k = k + 1;
        }
    }
    assert(orig.take(k) =~= orig);
    *attrs = kept;
    taken
}

/// The mocked traits that an attribute declares.
pub open spec fn mocked_trait_of(attr: WheyContextAttribute) -> WheyMockedTrait {
    match attr {
        WheyContextAttribute::MocksSingleton(definition) => WheyMockedTrait::Singleton(definition),
        WheyContextAttribute::Mocks(definition) => WheyMockedTrait::Transient(definition),
        _ => arbitrary(),
    }
}

/// A whey context: its struct, without the attributes it read, and what
/// they said.
pub struct WheyContext {
    pub item: WheyContextItem,
    pub mocked_traits: Vec<WheyMockedTrait>,
    pub default_returns: Vec<WheyContextDefaultReturn>,
    pub return_generators: Vec<WheyContextReturnGenerator>,
    pub input_comparisons: Vec<WheyContextInputComparison>,
    pub sequences: Vec<WheyContextSequence>,
}

impl WheyContext {
    /// Takes the `mocks` and `mocks_singleton` attributes off the struct:
    /// the traits they declare, in the order of the attributes.
    pub fn parse_mocks(item: &mut WheyContextItem) -> (r: Vec<WheyMockedTrait>)
        ensures
            final(item).text == old(item).text,
            final(item).attrs@ == attributes_except(old(item).attrs@, AttributeKind::Mocks),
            r@.len() == attributes_of(old(item).attrs@, AttributeKind::Mocks).len(),
            forall|i: int|
                0 <= i < r@.len() ==> (#[trigger] r@[i]) == mocked_trait_of(
                    attributes_of(old(item).attrs@, AttributeKind::Mocks)[i],
                ),
    {
        let mut taken = take_attributes(&mut item.attrs, AttributeKind::Mocks);
        let ghost all = taken@;
        proof {
            lemma_attributes_of_kind(old(item).attrs@, AttributeKind::Mocks);
        }
        let mut mocks: Vec<WheyMockedTrait> = Vec::new();
        while taken.len() > 0
            invariant
                0 <= mocks@.len() <= all.len(),
                taken@ == all.skip(mocks@.len() as int),
                forall|i: int| 0 <= i < all.len() ==> is_of_kind(#[trigger] all[i], AttributeKind::Mocks),
                forall|i: int|
                    0 <= i < mocks@.len() ==> (#[trigger] mocks@[i]) == mocked_trait_of(all[i]),
            decreases taken@.len(),
        {
            let ghost j = mocks@.len() as int;
            let attr = taken.remove(0);
            assert(attr == all[j]);
            assert(all.skip(j + 1) =~= all.skip(j).skip(1));
            match attr {
                WheyContextAttribute::Mocks(definition) => {
                    mocks.push(WheyMockedTrait::Transient(definition));
                },
                WheyContextAttribute::MocksSingleton(definition) => {
                    mocks.push(WheyMockedTrait::Singleton(definition));
                },
                _ => {
                    assert(is_of_kind(all[j], AttributeKind::Mocks));
                },
            }
        }
        mocks
    }

    /// Takes the `mock_default_return` attributes off the struct, in their
    /// order.
    pub fn parse_default_returns(item: &mut WheyContextItem) -> (r: Vec<WheyContextDefaultReturn>)
        ensures
            final(item).text == old(item).text,
            final(item).attrs@ == attributes_except(
                old(item).attrs@,
                AttributeKind::DefaultReturn,
            ),
            r@.len() == attributes_of(old(item).attrs@, AttributeKind::DefaultReturn).len(),
            forall|i: int|
                0 <= i < r@.len() ==> attributes_of(old(item).attrs@, AttributeKind::DefaultReturn)[i]
                    == WheyContextAttribute::MockDefaultReturn(#[trigger] r@[i]),
    {
        let mut taken = take_attributes(&mut item.attrs, AttributeKind::DefaultReturn);
        let ghost all = taken@;
        proof {
            lemma_attributes_of_kind(old(item).attrs@, AttributeKind::DefaultReturn);
        }
        let mut found: Vec<WheyContextDefaultReturn> = Vec::new();
        while taken.len() > 0
            invariant
                0 <= found@.len() <= all.len(),
                taken@ == all.skip(found@.len() as int),
                forall|i: int|
                    0 <= i < all.len() ==> is_of_kind(#[trigger] all[i], AttributeKind::DefaultReturn),
                forall|i: int|
                    0 <= i < found@.len() ==> all[i] == WheyContextAttribute::MockDefaultReturn(
                        #[trigger] found@[i],
                    ),
            decreases taken@.len(),
        {
            let ghost j = found@.len() as int;
            let attr = taken.remove(0);
            assert(attr == all[j]);
            assert(all.skip(j + 1) =~= all.skip(j).skip(1));
            match attr {
                WheyContextAttribute::MockDefaultReturn(default_return) => {
                    found.push(default_return);
                },
                _ => {
                    assert(is_of_kind(all[j], AttributeKind::DefaultReturn));
                },
            }
        }
        found
    }

    /// Takes the `mock_return` attributes off the struct, in their order.
    pub fn parse_return_generators(item: &mut WheyContextItem) -> (r: Vec<
        WheyContextReturnGenerator,
    >)
        ensures
            final(item).text == old(item).text,
            final(item).attrs@ == attributes_except(old(item).attrs@, AttributeKind::Return),
            r@.len() == attributes_of(old(item).attrs@, AttributeKind::Return).len(),
            forall|i: int|
                0 <= i < r@.len() ==> attributes_of(old(item).attrs@, AttributeKind::Return)[i]
                    == WheyContextAttribute::MockReturn(#[trigger] r@[i]),
    {
        let mut taken = take_attributes(&mut item.attrs, AttributeKind::Return);
        let ghost all = taken@;
        proof {
            lemma_attributes_of_kind(old(item).attrs@, AttributeKind::Return);
        }
        let mut found: Vec<WheyContextReturnGenerator> = Vec::new();
        while taken.len() > 0
            invariant
                0 <= found@.len() <= all.len(),
                taken@ == all.skip(found@.len() as int),
                forall|i: int|
                    0 <= i < all.len() ==> is_of_kind(#[trigger] all[i], AttributeKind::Return),
                forall|i: int|
                    0 <= i < found@.len() ==> all[i] == WheyContextAttribute::MockReturn(
                        #[trigger] found@[i],
                    ),
            decreases taken@.len(),
        {
            let ghost j = found@.len() as int;
            let attr = taken.remove(0);
            assert(attr == all[j]);
            assert(all.skip(j + 1) =~= all.skip(j).skip(1));
            match attr {
                WheyContextAttribute::MockReturn(generator) => {
                    found.push(generator);
                },
                _ => {
                    assert(is_of_kind(all[j], AttributeKind::Return));
                },
            }
        }
        found
    }

    /// Takes the `mock_input` attributes off the struct, in their order.
    pub fn parse_input_comparisons(item: &mut WheyContextItem) -> (r: Vec<
        WheyContextInputComparison,
    >)
        ensures
            final(item).text == old(item).text,
            final(item).attrs@ == attributes_except(old(item).attrs@, AttributeKind::Input),
            r@.len() == attributes_of(old(item).attrs@, AttributeKind::Input).len(),
            forall|i: int|
                0 <= i < r@.len() ==> attributes_of(old(item).attrs@, AttributeKind::Input)[i]
                    == WheyContextAttribute::MockInput(#[trigger] r@[i]),
    {
        let mut taken = take_attributes(&mut item.attrs, AttributeKind::Input);
        let ghost all = taken@;
        proof {
            lemma_attributes_of_kind(old(item).attrs@, AttributeKind::Input);
        }
        let mut found: Vec<WheyContextInputComparison> = Vec::new();
        while taken.len() > 0
            invariant
                0 <= found@.len() <= all.len(),
                taken@ == all.skip(found@.len() as int),
                forall|i: int|
                    0 <= i < all.len() ==> is_of_kind(#[trigger] all[i], AttributeKind::Input),
                forall|i: int|
                    0 <= i < found@.len() ==> all[i] == WheyContextAttribute::MockInput(
                        #[trigger] found@[i],
                    ),
            decreases taken@.len(),
        {
            let ghost j = found@.len() as int;
            let attr = taken.remove(0);
            assert(attr == all[j]);
            assert(all.skip(j + 1) =~= all.skip(j).skip(1));
            match attr {
                WheyContextAttribute::MockInput(comparison) => {
                    found.push(comparison);
                },
                _ => {
                    assert(is_of_kind(all[j], AttributeKind::Input));
                },
            }
        }
        found
    }

    /// Takes the `mock_sequence` attributes off the struct, in their order.
    pub fn parse_sequences(item: &mut WheyContextItem) -> (r: Vec<WheyContextSequence>)
        ensures
            final(item).text == old(item).text,
            final(item).attrs@ == attributes_except(old(item).attrs@, AttributeKind::Sequence),
            r@.len() == attributes_of(old(item).attrs@, AttributeKind::Sequence).len(),
            forall|i: int|
                0 <= i < r@.len() ==> attributes_of(old(item).attrs@, AttributeKind::Sequence)[i]
                    == WheyContextAttribute::MockSequence(#[trigger] r@[i]),
    {
        let mut taken = take_attributes(&mut item.attrs, AttributeKind::Sequence);
        let ghost all = taken@;
        proof {
            lemma_attributes_of_kind(old(item).attrs@, AttributeKind::Sequence);
        }
        let mut found: Vec<WheyContextSequence> = Vec::new();
        while taken.len() > 0
            invariant
                0 <= found@.len() <= all.len(),
                taken@ == all.skip(found@.len() as int),
                forall|i: int|
                    0 <= i < all.len() ==> is_of_kind(#[trigger] all[i], AttributeKind::Sequence),
                forall|i: int|
                    0 <= i < found@.len() ==> all[i] == WheyContextAttribute::MockSequence(
                        #[trigger] found@[i],
                    ),
            decreases taken@.len(),
        {
            let ghost j = found@.len() as int;
            let attr = taken.remove(0);
            assert(attr == all[j]);
            assert(all.skip(j + 1) =~= all.skip(j).skip(1));
            match attr {
                WheyContextAttribute::MockSequence(sequence) => {
                    found.push(sequence);
                },
                _ => {
                    assert(is_of_kind(all[j], AttributeKind::Sequence));
                },
            }
        }
        found
    }

    /// A whey context read off its struct: the attributes it reads are taken
    /// off, kind by kind, and what they say is kept in their order.
    pub fn parse(item: WheyContextItem) -> (r: WheyContext)
        ensures
            r.item.text == item.text,
            r.item.attrs@ == remaining_attributes(item.attrs@),
            r.mocked_traits@.len() == attributes_of(item.attrs@, AttributeKind::Mocks).len(),
            forall|i: int|
                0 <= i < r.mocked_traits@.len() ==> (#[trigger] r.mocked_traits@[i])
                    == mocked_trait_of(attributes_of(item.attrs@, AttributeKind::Mocks)[i]),
            ({
                let attrs = after_mocks(item.attrs@);
                &&& r.default_returns@.len() == attributes_of(
                    attrs,
                    AttributeKind::DefaultReturn,
                ).len()
                &&& forall|i: int|
                    0 <= i < r.default_returns@.len() ==> attributes_of(
                        attrs,
                        AttributeKind::DefaultReturn,
                    )[i] == WheyContextAttribute::MockDefaultReturn(
                        #[trigger] r.default_returns@[i],
                    )
            }),
            ({
                let attrs = after_default_returns(item.attrs@);
                &&& r.return_generators@.len() == attributes_of(attrs, AttributeKind::Return).len()
                &&& forall|i: int|
                    0 <= i < r.return_generators@.len() ==> attributes_of(
                        attrs,
                        AttributeKind::Return,
                    )[i] == WheyContextAttribute::MockReturn(#[trigger] r.return_generators@[i])
            }),
            ({
                let attrs = after_return_generators(item.attrs@);
                &&& r.input_comparisons@.len() == attributes_of(attrs, AttributeKind::Input).len()
                &&& forall|i: int|
                    0 <= i < r.input_comparisons@.len() ==> attributes_of(
                        attrs,
                        AttributeKind::Input,
                    )[i] == WheyContextAttribute::MockInput(#[trigger] r.input_comparisons@[i])
            }),
            ({
                let attrs = after_input_comparisons(item.attrs@);
                &&& r.sequences@.len() == attributes_of(attrs, AttributeKind::Sequence).len()
                &&& forall|i: int|
                    0 <= i < r.sequences@.len() ==> attributes_of(attrs, AttributeKind::Sequence)[i]
                        == WheyContextAttribute::MockSequence(#[trigger] r.sequences@[i])
            }),
    {
        let mut item = item;
        let mocked_traits = Self::parse_mocks(&mut item);
        let default_returns = Self::parse_default_returns(&mut item);
        let return_generators = Self::parse_return_generators(&mut item);
        let input_comparisons = Self::parse_input_comparisons(&mut item);
        let sequences = Self::parse_sequences(&mut item);
        WheyContext {
            item,
            mocked_traits,
            default_returns,
            return_generators,
            input_comparisons,
            sequences,
        }
    }
}

/// The attributes left once the mocked traits are taken off.
pub open spec fn after_mocks(attrs: Seq<WheyContextAttribute>) -> Seq<WheyContextAttribute> {
    attributes_except(attrs, AttributeKind::Mocks)
}

/// The attributes left once the default returns are taken off too.
pub open spec fn after_default_returns(attrs: Seq<WheyContextAttribute>) -> Seq<
    WheyContextAttribute,
> {
    attributes_except(after_mocks(attrs), AttributeKind::DefaultReturn)
}

/// The attributes left once the return generators are taken off too.
pub open spec fn after_return_generators(attrs: Seq<WheyContextAttribute>) -> Seq<
    WheyContextAttribute,
> {
    attributes_except(after_default_returns(attrs), AttributeKind::Return)
}

/// The attributes left once the input comparisons are taken off too.
pub open spec fn after_input_comparisons(attrs: Seq<WheyContextAttribute>) -> Seq<
    WheyContextAttribute,
> {
    attributes_except(after_return_generators(attrs), AttributeKind::Input)
}

/// The attributes that stay on a context's struct: none that the context
/// reads.
pub open spec fn remaining_attributes(attrs: Seq<WheyContextAttribute>) -> Seq<
    WheyContextAttribute,
> {
    attributes_except(after_input_comparisons(attrs), AttributeKind::Sequence)
}

} // verus!
