//! The pieces of Rust syntax that the mock generator reads, held as text.
use vstd::prelude::*;

verus! {

/// One segment of a path: an identifier and its generic arguments as
/// written (such as `<T>`, or nothing).
pub struct WheyPathSegment {
    pub ident: String,
    pub arguments: String,
}

/// A path such as `crate::io::FileSystem`.
pub struct WheyPath {
    pub leading_colon: bool,
    pub segments: Vec<WheyPathSegment>,
}

/// A segment written out.
pub open spec fn segment_text(segment: WheyPathSegment) -> Seq<char> {
    segment.ident@ + segment.arguments@
}

/// The segments written out, joined by `::`.
pub open spec fn segments_text(segments: Seq<WheyPathSegment>) -> Seq<char>
    decreases segments.len(),
{
    if segments.len() == 0 {
        seq![]
    } else if segments.len() == 1 {
        segment_text(segments[0])
    } else {
        segments_text(segments.drop_last()) + "::"@ + segment_text(segments.last())
    }
}

impl WheyPath {
    /// The path written out.
    pub open spec fn spec_text(&self) -> Seq<char> {
        (if self.leading_colon { "::"@ } else { seq![] }) + segments_text(self.segments@)
    }

    /// The path written out.
    pub fn text(&self) -> (r: String)
        ensures
            r@ == self.spec_text(),
    {
        let mut r = if self.leading_colon { String::from_str("::") } else { String::new() };
        let ghost start = r@;
        let n = self.segments.len();
        let mut i: usize = 0;
        while i < n
            invariant
                n == self.segments@.len(),
                i <= n,
                r@ == start + segments_text(self.segments@.take(i as int)),
            decreases n - i,
        {
            let ghost before = self.segments@.take(i as int);
            let ghost after = self.segments@.take(i + 1);
            assert(after.drop_last() =~= before);
            assert(after.last() == self.segments@[i as int]);
            if i > 0 {
                r.append("::");
            } else {
                assert(after =~= seq![self.segments@[0]]);
            }
            r.append(self.segments[i].ident.as_str());
            r.append(self.segments[i].arguments.as_str());
            i = i + 1;
            assert(r@ =~= start + segments_text(after));
        }
        assert(self.segments@.take(n as int) =~= self.segments@);
        r
    }
}

/// A closure or the name of a function, given where the mock expects a
/// comparison or a generator.
pub enum WheyExpectation {
    /// The text of a closure.
    Closure(String),
    /// The name of a function.
    Delegate(String),
}

impl WheyExpectation {
    pub open spec fn spec_text(&self) -> Seq<char> {
        match self {
            WheyExpectation::Closure(closure) => closure@,
            WheyExpectation::Delegate(delegate) => delegate@,
        }
    }

    /// The expectation written out.
    pub fn quote(&self) -> (r: String)
        ensures
            r@ == self.spec_text(),
    {
        match self {
            WheyExpectation::Closure(closure) => closure.clone(),
            WheyExpectation::Delegate(delegate) => delegate.clone(),
        }
    }
}

} // verus!

verus! {

/// Texts joined by a separator.
pub open spec fn joined(parts: Seq<Seq<char>>, sep: Seq<char>) -> Seq<char>
    decreases parts.len(),
{
    if parts.len() == 0 {
        seq![]
    } else if parts.len() == 1 {
        parts[0]
    } else {
        joined(parts.drop_last(), sep) + sep + parts.last()
    }
}

/// The texts of a list of strings.
pub open spec fn string_texts(parts: Seq<String>) -> Seq<Seq<char>> {
    parts.map_values(|s: String| s@)
}

/// Joins texts with a separator.
pub fn join_texts(parts: &Vec<String>, sep: &str) -> (r: String)
    ensures
        r@ == joined(string_texts(parts@), sep@),
{
    let mut r = String::new();
    let ghost texts = string_texts(parts@);
    let n = parts.len();
    let mut i: usize = 0;
    while i < n
        invariant
            n == parts@.len(),
            texts == string_texts(parts@),
            i <= n,
            r@ == joined(texts.take(i as int), sep@),
        decreases n - i,
    {
        let ghost before = texts.take(i as int);
        let ghost after = texts.take(i + 1);
        assert(after.drop_last() =~= before);
        assert(after.last() == parts@[i as int]@);
        if i > 0 {
            r.append(sep);
        } else {
            assert(r@ =~= seq![]);
            assert(after =~= seq![parts@[0]@]);
        }
        r.append(parts[i].as_str());
        i = i + 1;
        assert(r@ =~= joined(after, sep@));
    }
    assert(texts.take(n as int) =~= texts);
    r
}

} // verus!
