//! The operations a command line asks for.
use vstd::prelude::*;
use super::expression::CronExpression;

verus! {

/// What the cron program is asked to do.
pub enum CronOperation {
    /// Test expressions against the current moment.
    Test(Vec<CronExpression>),
    /// Write a sample configuration to the path (or the default path).
    Generate { path: Option<String> },
    /// Run the jobs of the configuration at the path (or the default path).
    Start { path: Option<String> },
}

/// Supplies the arguments of the program.
pub trait ArgumentFactory {
    fn args(&self) -> Vec<String>;
}

/// The arguments of the command line, without the program's name.
pub struct CronArgumentFactory;

impl CronArgumentFactory {
    /// The command line without its first word, the program's name.
    pub fn arguments_after_program(all: Vec<String>) -> (r: Vec<String>)
        requires
            all@.len() > 0,
        ensures
            r@ == all@.drop_first(),
    {
        let mut arguments = all;
        arguments.remove(0);
        arguments
    }
}

/// What the cron service is asked to do.
#[derive(Debug)]
pub enum CurdsCronOperation {
    Generate(String),
    Process(String),
}

/// A keyword of the service's command line.
pub open spec fn is_operation_keyword(word: Seq<char>) -> bool {
    word == "process"@ || word == "generate"@
}

/// Arguments that form pairs of a keyword and its value.
pub open spec fn valid_operation_args(args: Seq<Seq<char>>) -> bool
    decreases args.len(),
{
    if args.len() == 0 {
        true
    } else {
        is_operation_keyword(args[0]) && args.len() >= 2 && valid_operation_args(args.skip(2))
    }
}

/// The operation a keyword and its value ask for.
pub open spec fn operation_of(keyword: Seq<char>, value: Seq<char>, operation: CurdsCronOperation) -> bool {
    match operation {
        CurdsCronOperation::Process(v) => keyword == "process"@ && v@ == value,
        CurdsCronOperation::Generate(v) => keyword == "generate"@ && v@ == value,
    }
}

fn is_keyword(word: &String, keyword: &str) -> (r: bool)
    ensures
        r == (word@ == keyword@),
{
    let a = word.as_str();
    let n = a.unicode_len();
    if n != keyword.unicode_len() {
        return false;
    }
    let mut i: usize = 0;
    while i < n
        invariant
            n == a@.len(),
            n == keyword@.len(),
            a@ == word@,
            i <= n,
            forall|j: int| 0 <= j < i ==> a@[j] == keyword@[j],
        decreases n - i,
    {
        if a.get_char(i) != keyword.get_char(i) {
            return false;
        }
        i = i + 1;
    }
    assert(a@ =~= keyword@);
    true
}

/// Whether the arguments form pairs of a keyword (`process` or
/// `generate`) and its value.
pub fn operation_args_are_valid(args: &Vec<String>) -> (r: bool)
    ensures
        r == valid_operation_args(args@.map_values(|s: String| s@)),
{
    let ghost words = args@.map_values(|s: String| s@);
    let n = args.len();
    let mut i: usize = 0;
    assert(words.skip(0) =~= words);
    while i < n
        invariant
            n == args@.len(),
            words == args@.map_values(|s: String| s@),
            i <= n,
            valid_operation_args(words) == valid_operation_args(words.skip(i as int)),
        decreases n - i,
    {
        let ghost rest = words.skip(i as int);
        assert(rest[0] == args@[i as int]@);
        if !(is_keyword(&args[i], "process") || is_keyword(&args[i], "generate")) || i + 1 >= n {
            return false;
        }
        assert(rest.skip(2) =~= words.skip(i + 2));
        i = i + 2;
    }
    assert(words.skip(i as int) =~= seq![]);
    true
}

/// The operations that the arguments ask for, one per keyword and value.
pub fn parse_operations(args: Vec<String>) -> (r: Vec<CurdsCronOperation>)
    requires
        valid_operation_args(args@.map_values(|s: String| s@)),
    ensures
        2 * r@.len() == args@.len(),
        forall|k: int|
            0 <= k < r@.len() ==> operation_of(
                args@[2 * k]@,
                args@[2 * k + 1]@,
                #[trigger] r@[k],
            ),
{
    let ghost words = args@.map_values(|s: String| s@);
    let mut operations: Vec<CurdsCronOperation> = Vec::new();
    let n = args.len();
    let mut i: usize = 0;
    assert(words.skip(0) =~= words);
    while i < n
        invariant
            n == args@.len(),
            words == args@.map_values(|s: String| s@),
            i <= n,
            i == 2 * operations@.len(),
            valid_operation_args(words.skip(i as int)),
            forall|k: int|
                0 <= k < operations@.len() ==> operation_of(
                    args@[2 * k]@,
                    args@[2 * k + 1]@,
                    #[trigger] operations@[k],
                ),
        decreases n - i,
    {
        let ghost rest = words.skip(i as int);
        assert(rest[0] == args@[i as int]@);
        assert(rest.skip(2) =~= words.skip(i + 2));
        let value = args[i + 1].clone();
        if is_keyword(&args[i], "process") {
            operations.push(CurdsCronOperation::Process(value));
        } else {
            operations.push(CurdsCronOperation::Generate(value));
        }
        i = i + 2;
    }
    operations
}

} // verus!
