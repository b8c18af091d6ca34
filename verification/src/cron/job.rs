//! Jobs: named commands that run whenever one of their expressions matches.
use vstd::prelude::*;
use super::datetime::CronDateTime;
use super::expression::CronExpression;

verus! {

/// How a job is run: the process, its arguments, and how long it may take.
#[derive(Debug)]
pub struct JobParameters {
    pub process: String,
    pub arguments: Option<Vec<String>>,
    pub timeout_seconds: Option<u64>,
}

/// The number of seconds the sample job may take.
pub const SAMPLE_TIMEOUT: u64 = 50;

impl JobParameters {
    /// The sample parameters: `sh -c "echo hello world!"`, given
    /// `SAMPLE_TIMEOUT` seconds.
    pub open spec fn is_sample(&self) -> bool {
        &&& self.process@ == "sh"@
        &&& self.arguments matches Some(args) && args@.len() == 2 && args@[0]@ == "-c"@
            && args@[1]@ == "echo hello world!"@
        &&& self.timeout_seconds == Some(SAMPLE_TIMEOUT)
    }

    /// A job that says hello through the shell.
    pub fn sample() -> (r: JobParameters)
        ensures
            r.is_sample(),
    {
        let mut arguments: Vec<String> = Vec::new();
        arguments.push(String::from_str("-c"));
        arguments.push(String::from_str("echo hello world!"));
        JobParameters {
            process: String::from_str("sh"),
            arguments: Some(arguments),
            timeout_seconds: Some(SAMPLE_TIMEOUT),
        }
    }

    /// A copy of the parameters.
    pub fn clone(&self) -> (r: JobParameters)
        ensures
            r.process@ == self.process@,
            r.timeout_seconds == self.timeout_seconds,
            r.arguments is Some <==> self.arguments is Some,
            r.arguments matches Some(args) ==> args@.len() == self.arguments->Some_0@.len() && forall|
                i: int,
            |
                0 <= i < args@.len() ==> (#[trigger] args@[i])@ == self.arguments->Some_0@[i]@,
    {
        let arguments = match &self.arguments {
            None => None,
            Some(args) => {
                let mut copied: Vec<String> = Vec::new();
                let n = args.len();
                let mut i: usize = 0;
                while i < n
                    invariant
                        n == args@.len(),
                        i <= n,
                        copied@.len() == i,
                        forall|j: int| 0 <= j < i ==> (#[trigger] copied@[j])@ == args@[j]@,
                    decreases n - i,
                {
                    copied.push(args[i].clone());
                    i = i + 1;
                }
                Some(copied)
            },
        };
        JobParameters {
            process: self.process.clone(),
            arguments,
            timeout_seconds: self.timeout_seconds,
        }
    }
}

/// A job: runs its parameters whenever one of its expressions matches.
#[derive(Debug)]
pub struct CronJob {
    pub name: String,
    pub expressions: Vec<CronExpression>,
    pub parameters: JobParameters,
}

impl CronJob {
    pub open spec fn spec_expressions(&self) -> Seq<CronExpression> {
        self.expressions@
    }

    /// Every expression can be matched.
    pub open spec fn wf(&self) -> bool {
        forall|i: int| 0 <= i < self.spec_expressions().len() ==> (#[trigger] self.spec_expressions()[i]).can_match()
    }

    /// A job is responsive at a moment when any of its expressions matches it.
    pub open spec fn spec_is_responsive(&self, time: CronDateTime) -> bool {
        exists|i: int|
            0 <= i < self.spec_expressions().len() && (#[trigger] self.spec_expressions()[i]).spec_is_match(
                time,
            )
    }

    pub fn new(name: String, expressions: Vec<CronExpression>, parameters: JobParameters) -> (r: Self)
        ensures
            r.name == name,
            r.spec_expressions() == expressions@,
            r.parameters == parameters,
    {
        Self { name, expressions, parameters }
    }

    /// Whether any expression of the job matches `time`.
    pub fn is_responsive(&self, time: &CronDateTime) -> (r: bool)
        requires
            self.wf(),
            time.wf(),
        ensures
            r == self.spec_is_responsive(*time),
    {
        let n = self.expressions.len();
        let mut i: usize = 0;
        while i < n
            invariant
                n == self.spec_expressions().len(),
                i <= n,
                self.wf(),
                time.wf(),
                forall|j: int| 0 <= j < i ==> !(#[trigger] self.spec_expressions()[j]).spec_is_match(*time),
            decreases n - i,
        {
            if self.expressions[i].is_match(time) {
                return true;
            }
            i = i + 1;
        }
        false
    }
}

} // verus!
