//! The configuration file's content: named jobs with their expressions.
use vstd::prelude::*;
use super::expression::{CronExpression, spec_parse_expression};
use super::job::{CronJob, JobParameters};
use super::parsing::error::{CronParsingError, ParsingFailure};
use super::parsing::parser::CurdsCronParser;
use super::value::CronValue;

verus! {

/// The name of the configuration file read when no path is given.
pub const DEFAULT_CONFIG: &'static str = "config.json";

/// The texts of a list of strings.
pub open spec fn texts_of(strings: Seq<String>) -> Seq<Seq<char>> {
    strings.map_values(|s: String| s@)
}

/// Expressions parsed one after the other; the first failure ends the parse.
pub open spec fn spec_parse_all(expressions: Seq<Seq<char>>) -> Result<
    Seq<Seq<Seq<CronValue>>>,
    ParsingFailure,
>
    decreases expressions.len(),
{
    if expressions.len() == 0 {
        Ok(seq![])
    } else {
        match spec_parse_all(expressions.drop_last()) {
            Err(e) => Err(e),
            Ok(parsed) => match spec_parse_expression::<CurdsCronParser>(expressions.last()) {
                Ok(values) => Ok(parsed.push(values)),
                Err(e) => Err(e),
            },
        }
    }
}

/// A job as the configuration file writes it.
pub struct JobConfig {
    pub name: String,
    pub expressions: Vec<String>,
    pub job: JobParameters,
}

/// The jobs of a configuration, each parsed in turn; the first failure
/// ends the parse.
pub open spec fn spec_parse_jobs(jobs: Seq<JobConfig>) -> Result<
    Seq<Seq<Seq<Seq<CronValue>>>>,
    ParsingFailure,
>
    decreases jobs.len(),
{
    if jobs.len() == 0 {
        Ok(seq![])
    } else {
        match spec_parse_jobs(jobs.drop_last()) {
            Err(e) => Err(e),
            Ok(parsed) => match spec_parse_all(texts_of(jobs.last().expressions@)) {
                Ok(values) => Ok(parsed.push(values)),
                Err(e) => Err(e),
            },
        }
    }
}

/// The values of the expressions of a job.
pub open spec fn job_values(job: CronJob) -> Seq<Seq<Seq<CronValue>>> {
    job.expressions@.map_values(|e: CronExpression| e.spec_values())
}

/// A job made from its configuration: same name, same parameters, and
/// its expressions parsed.
pub open spec fn job_from_config(config: JobConfig, job: CronJob) -> bool {
    &&& job.name@ == config.name@
    &&& job.parameters == config.job
    &&& job.wf()
    &&& spec_parse_all(texts_of(config.expressions@)) == Ok::<
        Seq<Seq<Seq<CronValue>>>,
        ParsingFailure,
    >(job_values(job))
}

proof fn lemma_parse_all_error_extends(expressions: Seq<Seq<char>>, k: int)
    requires
        0 <= k <= expressions.len(),
        spec_parse_all(expressions.take(k)) is Err,
    ensures
        spec_parse_all(expressions) == spec_parse_all(expressions.take(k)),
    decreases expressions.len() - k,
{
    if k < expressions.len() {
        assert(expressions.take(k + 1).drop_last() =~= expressions.take(k));
        lemma_parse_all_error_extends(expressions, k + 1);
    } else {
        assert(expressions.take(k) =~= expressions);
    }
}

proof fn lemma_parse_jobs_error_extends(jobs: Seq<JobConfig>, k: int)
    requires
        0 <= k <= jobs.len(),
        spec_parse_jobs(jobs.take(k)) is Err,
    ensures
        spec_parse_jobs(jobs) == spec_parse_jobs(jobs.take(k)),
    decreases jobs.len() - k,
{
    if k < jobs.len() {
        assert(jobs.take(k + 1).drop_last() =~= jobs.take(k));
        lemma_parse_jobs_error_extends(jobs, k + 1);
    } else {
        assert(jobs.take(k) =~= jobs);
    }
}

impl JobConfig {
    /// The sample job: named `Testing Job`, it runs the sample parameters
    /// every minute.
    pub open spec fn is_sample(&self) -> bool {
        &&& self.name@ == "Testing Job"@
        &&& self.expressions@.len() == 1
        &&& self.expressions@[0]@ == "* * * * *"@
        &&& self.job.is_sample()
    }

    /// A job named `Testing Job` that runs the sample parameters every minute.
    pub fn sample() -> (r: Self)
        ensures
            r.is_sample(),
    {
        let mut expressions: Vec<String> = Vec::new();
        expressions.push(String::from_str("* * * * *"));
        Self { name: String::from_str("Testing Job"), expressions, job: JobParameters::sample() }
    }

    /// Parses the expressions of the job.
    pub fn to_cron_job(self) -> (r: Result<CronJob, CronParsingError>)
        ensures
            r matches Ok(job) ==> job_from_config(self, job),
            r matches Err(e) ==> spec_parse_all(texts_of(self.expressions@)) == Err::<
                Seq<Seq<Seq<CronValue>>>,
                ParsingFailure,
            >(e@),
    {
        let ghost texts = texts_of(self.expressions@);
        let mut expressions: Vec<CronExpression> = Vec::new();
        let n = self.expressions.len();
        let mut i: usize = 0;
        assert(texts.take(0) =~= seq![]);
        assert(expressions@.map_values(|e: CronExpression| e.spec_values()) =~= seq![]);
        while i < n
            invariant
                n == self.expressions@.len(),
                texts == texts_of(self.expressions@),
                i <= n,
                expressions@.len() == i,
                forall|j: int| 0 <= j < i ==> (#[trigger] expressions@[j]).wf(),
                spec_parse_all(texts.take(i as int)) == Ok::<Seq<Seq<Seq<CronValue>>>, ParsingFailure>(
                    expressions@.map_values(|e: CronExpression| e.spec_values()),
                ),
            decreases n - i,
        {
            let ghost prefix = texts.take(i + 1);
            assert(prefix.drop_last() =~= texts.take(i as int));
            assert(prefix.last() == self.expressions@[i as int]@);
            let parsed = CronExpression::parse::<CurdsCronParser>(self.expressions[i].as_str());
            match parsed {
                Ok(expression) => {
                    let ghost before = expressions@;
                    expressions.push(expression);
                    assert(expressions@.map_values(|e: CronExpression| e.spec_values()) =~= before.map_values(
                        |e: CronExpression| e.spec_values(),
                    ).push(expression.spec_values()));
                },
                Err(e) => {
                    assert(spec_parse_all(prefix) == Err::<Seq<Seq<Seq<CronValue>>>, ParsingFailure>(
                        e@,
                    ));
                    proof {
                        lemma_parse_all_error_extends(texts, i + 1);
                    }
                    return Err(e);
                },
            }
            i = i + 1;
        }
        assert(texts.take(n as int) =~= texts);
        let job = CronJob::new(self.name, expressions, self.job);
        Ok(job)
    }
}

/// The content of a configuration file: the jobs to run.
pub struct CronConfig {
    pub jobs: Vec<JobConfig>,
}

impl CronConfig {
    /// A configuration without jobs.
    pub fn new() -> (r: Self)
        ensures
            r.jobs@.len() == 0,
    {
        Self { jobs: Vec::new() }
    }

    /// A configuration with the sample job alone.
    pub fn sample() -> (r: Self)
        ensures
            r.jobs@.len() == 1,
            r.jobs@[0].is_sample(),
    {
        let mut jobs: Vec<JobConfig> = Vec::new();
        jobs.push(JobConfig::sample());
        Self { jobs }
    }

    /// Adds the jobs of another configuration after these.
    pub fn absorb(&mut self, config: CronConfig)
        ensures
            final(self).jobs@ == old(self).jobs@ + config.jobs@,
    {
        let mut other = config.jobs;
        self.jobs.append(&mut other);
    }

    /// Parses the expressions of every job.
    pub fn to_cron_jobs(self) -> (r: Result<Vec<CronJob>, CronParsingError>)
        ensures
            r matches Ok(jobs) ==> jobs@.len() == self.jobs@.len() && forall|i: int|
                0 <= i < jobs@.len() ==> job_from_config(self.jobs@[i], #[trigger] jobs@[i]),
            r matches Err(e) ==> spec_parse_jobs(self.jobs@) == Err::<
                Seq<Seq<Seq<Seq<CronValue>>>>,
                ParsingFailure,
            >(e@),
            (r is Ok) <==> (spec_parse_jobs(self.jobs@) is Ok),
    {
        let ghost configs = self.jobs@;
        let mut jobs: Vec<CronJob> = Vec::new();
        assert(configs.take(0) =~= seq![]);
        let mut remaining = self.jobs;
        let n = remaining.len();
        let mut i: usize = 0;
        while i < n
            invariant
                n == configs.len(),
                configs == self.jobs@,
                i <= n,
                remaining@ == configs.skip(i as int),
                jobs@.len() == i,
                forall|j: int| 0 <= j < i ==> job_from_config(configs[j], #[trigger] jobs@[j]),
                spec_parse_jobs(configs.take(i as int)) is Ok,
            decreases n - i,
        {
            let config = remaining.remove(0);
            assert(config == configs[i as int]);
            assert(remaining@ =~= configs.skip(i + 1));
            let ghost prefix = configs.take(i + 1);
            assert(prefix.drop_last() =~= configs.take(i as int));
            assert(prefix.last() == config);
            let ghost expressions = config.expressions@;
            match config.to_cron_job() {
                Ok(job) => {
                    assert(spec_parse_all(texts_of(prefix.last().expressions@)) is Ok);
                    assert(spec_parse_jobs(prefix) is Ok);
                    jobs.push(job);
                },
                Err(e) => {
                    assert(spec_parse_jobs(prefix) == Err::<
                        Seq<Seq<Seq<Seq<CronValue>>>>,
                        ParsingFailure,
                    >(e@));
                    proof {
                        lemma_parse_jobs_error_extends(configs, i + 1);
                    }
                    return Err(e);
                },
            }
            i = i + 1;
        }
        assert(configs.take(n as int) =~= configs);
        Ok(jobs)
    }
}

/// The path of the configuration to read: the one given, or the default.
pub fn config_path(path: &Option<String>) -> (r: &str)
    ensures
        r@ == match path {
            Some(p) => p@,
            None => DEFAULT_CONFIG@,
        },
{
    match path {
        Some(provided) => provided.as_str(),
        None => DEFAULT_CONFIG,
    }
}

} // verus!
