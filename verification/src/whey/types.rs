//! Rust types as the mock generator reads and rewrites them.
use vstd::prelude::*;

verus! {

/// A type, as far as the mock generator looks into it.
pub enum WheyType {
    /// `&'lifetime mut elem`, the lifetime named without its apostrophe.
    Reference { lifetime: Option<String>, mutable: bool, elem: Box<WheyType> },
    /// A path type such as `std::vec::Vec<&'a str>`.
    Path { leading_colon: bool, segments: Vec<WheyTypeSegment> },
    /// `dyn A + 'a + B`.
    TraitObject { dyn_token: bool, bounds: Vec<WheyBound> },
    /// Any other type, written out.
    Other(String),
}

/// A segment of a path type.
pub struct WheyTypeSegment {
    pub ident: String,
    pub arguments: WheyPathArguments,
}

/// The arguments of a segment of a path type.
pub enum WheyPathArguments {
    /// No arguments.
    Plain,
    /// `<A, B>`, or `::<A, B>` with the turbofish.
    AngleBracketed { colon2: bool, args: Vec<WheyGenericArgument> },
    /// Other arguments (such as `(A) -> B`), written out.
    Other(String),
}

/// A generic argument.
pub enum WheyGenericArgument {
    Type(WheyType),
    /// A lifetime, a constant or a binding, written out.
    Other(String),
}

/// A bound of a trait object.
pub enum WheyBound {
    /// A lifetime bound, named without its apostrophe.
    Lifetime(String),
    /// A trait bound, written out.
    Other(String),
}

pub open spec fn bound_text(bound: WheyBound) -> Seq<char> {
    match bound {
        WheyBound::Lifetime(name) => "'"@ + name@,
        WheyBound::Other(text) => text@,
    }
}

/// Bounds joined by ` + `.
pub open spec fn bounds_text(bounds: Seq<WheyBound>) -> Seq<char>
    decreases bounds.len(),
{
    if bounds.len() == 0 {
        seq![]
    } else if bounds.len() == 1 {
        bound_text(bounds[0])
    } else {
        bounds_text(bounds.drop_last()) + " + "@ + bound_text(bounds.last())
    }
}

/// A type written out.
pub open spec fn type_text(ty: WheyType) -> Seq<char>
    decreases ty, 0nat,
{
    match ty {
        WheyType::Reference { lifetime, mutable, elem } => "&"@ + match lifetime {
            Some(name) => "'"@ + name@ + " "@,
            None => seq![],
        } + (if mutable { "mut "@ } else { seq![] }) + type_text(*elem),
        WheyType::Path { leading_colon, segments } => (if leading_colon { "::"@ } else { seq![] })
            + type_segments_text(segments@),
        WheyType::TraitObject { dyn_token, bounds } => (if dyn_token { "dyn "@ } else { seq![] })
            + bounds_text(bounds@),
        WheyType::Other(text) => text@,
    }
}

/// Segments of a path type joined by `::`.
pub open spec fn type_segments_text(segments: Seq<WheyTypeSegment>) -> Seq<char>
    decreases segments, 0nat,
{
    if segments.len() == 0 {
        seq![]
    } else if segments.len() == 1 {
        type_segment_text(segments[0])
    } else {
        type_segments_text(segments.drop_last()) + "::"@ + type_segment_text(segments.last())
    }
}

pub open spec fn type_segment_text(segment: WheyTypeSegment) -> Seq<char>
    decreases segment, 0nat,
{
    segment.ident@ + match segment.arguments {
        WheyPathArguments::Plain => seq![],
        WheyPathArguments::AngleBracketed { colon2, args } => (if colon2 { "::"@ } else { seq![] })
            + "<"@ + generic_args_text(args@) + ">"@,
        WheyPathArguments::Other(text) => text@,
    }
}

/// Generic arguments joined by `, `.
pub open spec fn generic_args_text(args: Seq<WheyGenericArgument>) -> Seq<char>
    decreases args, 0nat,
{
    if args.len() == 0 {
        seq![]
    } else if args.len() == 1 {
        generic_arg_text(args[0])
    } else {
        generic_args_text(args.drop_last()) + ", "@ + generic_arg_text(args.last())
    }
}

pub open spec fn generic_arg_text(arg: WheyGenericArgument) -> Seq<char>
    decreases arg, 0nat,
{
    match arg {
        WheyGenericArgument::Type(ty) => type_text(ty),
        WheyGenericArgument::Other(text) => text@,
    }
}

pub(crate) fn bound_string(bound: &WheyBound) -> (r: String)
    ensures
        r@ == bound_text(*bound),
{
    match bound {
        WheyBound::Lifetime(name) => String::from_str("'").concat(name.as_str()),
        WheyBound::Other(text) => text.clone(),
    }
}

/// Writes out `bounds` joined by ` + `.
fn bounds_string(bounds: &Vec<WheyBound>) -> (r: String)
    ensures
        r@ == bounds_text(bounds@),
{
    let mut r = String::new();
    let n = bounds.len();
    let mut i: usize = 0;
    while i < n
        invariant
            n == bounds@.len(),
            i <= n,
            r@ == bounds_text(bounds@.take(i as int)),
        decreases n - i,
    {
        let ghost after = bounds@.take(i + 1);
        assert(after.drop_last() =~= bounds@.take(i as int));
        assert(after.last() == bounds@[i as int]);
        if i > 0 {
            r.append(" + ");
        } else {
            assert(r@ =~= seq![]);
        }
        r.append(bound_string(&bounds[i]).as_str());
        i = i + 1;
        assert(r@ =~= bounds_text(after));
    }
    assert(bounds@.take(n as int) =~= bounds@);
    r
}

impl WheyType {
    /// The type written out.
    pub fn text(&self) -> (r: String)
        ensures
            r@ == type_text(*self),
        decreases self, 0nat,
    {
        match self {
            WheyType::Reference { lifetime, mutable, elem } => {
                let mut r = String::from_str("&");
                match lifetime {
                    Some(name) => {
                        r.append("'");
                        r.append(name.as_str());
                        r.append(" ");
                    },
                    None => {},
                }
                if *mutable {
                    r.append("mut ");
                }
                r.append(elem.text().as_str());
                r
            },
            WheyType::Path { leading_colon, segments } => {
                let prefix = if *leading_colon { String::from_str("::") } else { String::new() };
                prefix.concat(type_segments_string(segments).as_str())
            },
            WheyType::TraitObject { dyn_token, bounds } => {
                let prefix = if *dyn_token { String::from_str("dyn ") } else { String::new() };
                prefix.concat(bounds_string(bounds).as_str())
            },
            WheyType::Other(text) => text.clone(),
        }
    }
}

fn type_segments_string(segments: &Vec<WheyTypeSegment>) -> (r: String)
    ensures
        r@ == type_segments_text(segments@),
    decreases segments, 0nat,
{
    let mut r = String::new();
    let n = segments.len();
    let mut i: usize = 0;
    while i < n
        invariant
            n == segments@.len(),
            i <= n,
            r@ == type_segments_text(segments@.take(i as int)),
        decreases n - i,
    {
        let ghost after = segments@.take(i + 1);
        assert(after.drop_last() =~= segments@.take(i as int));
        assert(after.last() == segments@[i as int]);
        if i > 0 {
            r.append("::");
        } else {
            assert(r@ =~= seq![]);
        }
        r.append(type_segment_string(&segments[i]).as_str());
        i = i + 1;
        assert(r@ =~= type_segments_text(after));
    }
    assert(segments@.take(n as int) =~= segments@);
    r
}

fn type_segment_string(segment: &WheyTypeSegment) -> (r: String)
    ensures
        r@ == type_segment_text(*segment),
    decreases segment, 0nat,
{
    let mut r = segment.ident.clone();
    match &segment.arguments {
        WheyPathArguments::Plain => {},
        WheyPathArguments::AngleBracketed { colon2, args } => {
            if *colon2 {
                r.append("::");
            }
            r.append("<");
            r.append(generic_args_string(args).as_str());
            r.append(">");
        },
        WheyPathArguments::Other(text) => {
            r.append(text.as_str());
        },
    }
    r
}

fn generic_args_string(args: &Vec<WheyGenericArgument>) -> (r: String)
    ensures
        r@ == generic_args_text(args@),
    decreases args, 0nat,
{
    let mut r = String::new();
    let n = args.len();
    let mut i: usize = 0;
    while i < n
        invariant
            n == args@.len(),
            i <= n,
            r@ == generic_args_text(args@.take(i as int)),
        decreases n - i,
    {
        let ghost after = args@.take(i + 1);
        assert(after.drop_last() =~= args@.take(i as int));
        assert(after.last() == args@[i as int]);
        if i > 0 {
            r.append(", ");
        } else {
            assert(r@ =~= seq![]);
        }
        let piece = match &args[i] {
            WheyGenericArgument::Type(ty) => ty.text(),
            WheyGenericArgument::Other(text) => text.clone(),
        };
        assert(piece@ == generic_arg_text(args@[i as int]));
        r.append(piece.as_str());
        i = i + 1;
        assert(r@ =~= generic_args_text(after));
    }
    assert(args@.take(n as int) =~= args@);
    r
}

} // verus!
