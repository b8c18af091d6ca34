//! The names of the items that a mock is made of.
use vstd::prelude::*;
use super::model::{WheyPath, WheyPathSegment};

verus! {

/// The name of the testing struct of a trait: `Testing` and the trait's name.
pub fn testing_struct_name(ident: &str) -> (r: String)
    ensures
        r@ == "Testing"@ + ident@,
{
    String::from_str("Testing").concat(ident)
}

/// The method that sets how many calls are expected.
pub fn expect_calls_method(ident: &str) -> (r: String)
    ensures
        r@ == "expect_calls_"@ + ident@,
{
    String::from_str("expect_calls_").concat(ident)
}

/// The method that stores an input comparison.
pub fn store_expected_input_method(ident: &str) -> (r: String)
    ensures
        r@ == "store_expected_input_"@ + ident@,
{
    String::from_str("store_expected_input_").concat(ident)
}

/// The method that sets the default return generator.
pub fn default_return_method(ident: &str) -> (r: String)
    ensures
        r@ == "default_return_"@ + ident@,
{
    String::from_str("default_return_").concat(ident)
}

/// The method that stores a return generator.
pub fn store_return_method(ident: &str) -> (r: String)
    ensures
        r@ == "store_return_"@ + ident@,
{
    String::from_str("store_return_").concat(ident)
}

/// The field that holds the expected number of calls.
pub fn expected_calls_field(ident: &str) -> (r: String)
    ensures
        r@ == "expected_calls_"@ + ident@,
{
    String::from_str("expected_calls_").concat(ident)
}

/// The field that counts the calls made.
pub fn recorded_calls_field(ident: &str) -> (r: String)
    ensures
        r@ == "recorded_calls_"@ + ident@,
{
    String::from_str("recorded_calls_").concat(ident)
}

/// The field that holds the default return generator.
pub fn default_generator_field(ident: &str) -> (r: String)
    ensures
        r@ == "default_generator_"@ + ident@,
{
    String::from_str("default_generator_").concat(ident)
}

/// The field that holds the input comparisons.
pub fn expected_input_field(ident: &str) -> (r: String)
    ensures
        r@ == "expected_input_"@ + ident@,
{
    String::from_str("expected_input_").concat(ident)
}

/// The field that counts the uses left of each input comparison.
pub fn expected_input_times_field(ident: &str) -> (r: String)
    ensures
        r@ == "expected_input_times_"@ + ident@,
{
    String::from_str("expected_input_times_").concat(ident)
}

/// The field that holds the stored return generators.
pub fn returned_field(ident: &str) -> (r: String)
    ensures
        r@ == "returned_"@ + ident@,
{
    String::from_str("returned_").concat(ident)
}

/// The field that counts the uses left of each return generator.
pub fn returned_times_field(ident: &str) -> (r: String)
    ensures
        r@ == "returned_times_"@ + ident@,
{
    String::from_str("returned_times_").concat(ident)
}

/// A path whose last segment is renamed `prefix` followed by its old name,
/// without a leading `::`.
pub open spec fn renamed_path(path: WheyPath, prefix: Seq<char>, renamed: WheyPath) -> bool {
    &&& !renamed.leading_colon
    &&& renamed.segments@.len() == path.segments@.len()
    &&& forall|i: int|
        0 <= i < path.segments@.len() - 1 ==> (#[trigger] renamed.segments@[i]).ident@
            == path.segments@[i].ident@ && renamed.segments@[i].arguments@
            == path.segments@[i].arguments@
    &&& renamed.segments@.last().ident@ == prefix + path.segments@.last().ident@
    &&& renamed.segments@.last().arguments@ == path.segments@.last().arguments@
}

fn copy_segment(segment: &WheyPathSegment) -> (r: WheyPathSegment)
    ensures
        r.ident@ == segment.ident@,
        r.arguments@ == segment.arguments@,
{
    WheyPathSegment { ident: segment.ident.clone(), arguments: segment.arguments.clone() }
}

/// `path` with its last segment renamed `prefix` followed by its old name.
fn rename_last_segment(path: &WheyPath, prefix: &str) -> (r: WheyPath)
    requires
        path.segments@.len() > 0,
    ensures
        renamed_path(*path, prefix@, r),
{
    let n = path.segments.len();
    let mut segments: Vec<WheyPathSegment> = Vec::new();
    let mut i: usize = 0;
    while i < n - 1
        invariant
            n == path.segments@.len(),
            n > 0,
            i <= n - 1,
            segments@.len() == i,
            forall|j: int|
                0 <= j < i ==> (#[trigger] segments@[j]).ident@ == path.segments@[j].ident@
                    && segments@[j].arguments@ == path.segments@[j].arguments@,
        decreases n - 1 - i,
    {
        segments.push(copy_segment(&path.segments[i]));
        i = i + 1;
    }
    let last = &path.segments[n - 1];
    segments.push(
        WheyPathSegment {
            ident: String::from_str(prefix).concat(last.ident.as_str()),
            arguments: last.arguments.clone(),
        },
    );
    WheyPath { leading_colon: false, segments }
}

/// A trait to mock, and the testing struct that mocks it.
pub struct MockedTraitDefinition {
    pub mocked_trait: WheyPath,
    pub whey_name: WheyPath,
}

impl MockedTraitDefinition {
    /// The path of the testing struct of a trait: its last segment gets the
    /// prefix `Testing`.
    pub fn generate_testing_name(mocked_trait: &WheyPath) -> (r: WheyPath)
        requires
            mocked_trait.segments@.len() > 0,
        ensures
            renamed_path(*mocked_trait, "Testing"@, r),
    {
        rename_last_segment(mocked_trait, "Testing")
    }

    /// The path of the core of a trait's mock: its last segment gets the
    /// prefix `WheyCore`.
    pub fn generate_core_name(mocked_trait: &WheyPath) -> (r: WheyPath)
        requires
            mocked_trait.segments@.len() > 0,
        ensures
            renamed_path(*mocked_trait, "WheyCore"@, r),
    {
        rename_last_segment(mocked_trait, "WheyCore")
    }

    /// The definition for a trait: the trait and its testing struct.
    pub fn new(mocked_trait: WheyPath) -> (r: MockedTraitDefinition)
        requires
            mocked_trait.segments@.len() > 0,
        ensures
            r.mocked_trait == mocked_trait,
            renamed_path(mocked_trait, "Testing"@, r.whey_name),
    {
        let whey_name = Self::generate_testing_name(&mocked_trait);
        MockedTraitDefinition { mocked_trait, whey_name }
    }
}

/// A mocked trait, as a mocks attribute names it.
pub struct WheyMockedType {
    pub mocked_trait: WheyPath,
    pub whey_name: WheyPath,
    pub core_name: WheyPath,
}

impl WheyMockedType {
    /// The path of the whey struct of a trait: prefix `Whey`.
    pub fn generate_whey_name(mocked_trait: &WheyPath) -> (r: WheyPath)
        requires
            mocked_trait.segments@.len() > 0,
        ensures
            renamed_path(*mocked_trait, "Whey"@, r),
    {
        rename_last_segment(mocked_trait, "Whey")
    }

    /// The path of the core of a trait's mock: prefix `WheyCore`.
    pub fn generate_core_name(mocked_trait: &WheyPath) -> (r: WheyPath)
        requires
            mocked_trait.segments@.len() > 0,
        ensures
            renamed_path(*mocked_trait, "WheyCore"@, r),
    {
        rename_last_segment(mocked_trait, "WheyCore")
    }

    /// The names that mocking a trait needs.
    pub fn new(mocked_trait: WheyPath) -> (r: WheyMockedType)
        requires
            mocked_trait.segments@.len() > 0,
        ensures
            r.mocked_trait == mocked_trait,
            renamed_path(mocked_trait, "Whey"@, r.whey_name),
            renamed_path(mocked_trait, "WheyCore"@, r.core_name),
    {
        let whey_name = Self::generate_whey_name(&mocked_trait);
        let core_name = Self::generate_core_name(&mocked_trait);
        WheyMockedType { mocked_trait, whey_name, core_name }
    }
}

} // verus!

verus! {

/// The texts of the segments of a path.
pub open spec fn segment_texts(path: WheyPath) -> Seq<Seq<char>> {
    path.segments@.map_values(|s: WheyPathSegment| super::model::segment_text(s))
}

/// The text of a path whose last segment is renamed `prefix` followed by
/// its old name, without a leading `::`.
pub open spec fn renamed_text(path: WheyPath, prefix: Seq<char>) -> Seq<char> {
    let texts = segment_texts(path);
    super::model::joined(texts.update(texts.len() - 1, prefix + texts.last()), "::"@)
}

proof fn lemma_segments_joined(segments: Seq<WheyPathSegment>)
    ensures
        super::model::segments_text(segments) == super::model::joined(
            segments.map_values(|s: WheyPathSegment| super::model::segment_text(s)),
            "::"@,
        ),
    decreases segments.len(),
{
    if segments.len() > 0 {
        lemma_segments_joined(segments.drop_last());
        assert(segments.drop_last().map_values(|s: WheyPathSegment| super::model::segment_text(s))
            =~= segments.map_values(|s: WheyPathSegment| super::model::segment_text(s)).drop_last());
    }
}

/// The text of a renamed path depends on the path and the prefix alone.
pub proof fn lemma_renamed_text(path: WheyPath, prefix: Seq<char>, renamed: WheyPath)
    requires
        path.segments@.len() > 0,
        renamed_path(path, prefix, renamed),
    ensures
        renamed.spec_text() == renamed_text(path, prefix),
{
    lemma_segments_joined(renamed.segments@);
    let texts = segment_texts(path);
    let n = path.segments@.len();
    let last = path.segments@[n - 1];
    assert(renamed.segments@[n - 1].ident@ + renamed.segments@[n - 1].arguments@ =~= prefix + (
    last.ident@ + last.arguments@));
    assert forall|i: int| 0 <= i < n implies #[trigger] segment_texts(renamed)[i] == texts.update(
        n - 1,
        prefix + texts.last(),
    )[i] by {
        if i < n - 1 {
            assert(renamed.segments@[i].ident@ == path.segments@[i].ident@);
        }
    }
    assert(segment_texts(renamed) =~= texts.update(texts.len() - 1, prefix + texts.last()));
    assert(renamed.spec_text() =~= super::model::segments_text(renamed.segments@));
}

} // verus!
