//! Deciding, at each look at the clock, which jobs to start.
use vstd::prelude::*;
use super::datetime::CronDateTime;
use super::job::CronJob;

verus! {

/// The indices below `k` of the jobs that are responsive at `now`, in order.
pub open spec fn due_jobs(jobs: Seq<CronJob>, now: CronDateTime, k: nat) -> Seq<usize>
    decreases k,
{
    if k == 0 {
        seq![]
    } else if jobs[k - 1].spec_is_responsive(now) {
        due_jobs(jobs, now, (k - 1) as nat).push((k - 1) as usize)
    } else {
        due_jobs(jobs, now, (k - 1) as nat)
    }
}

/// One look at the clock: from the minute last acted on, the jobs and the
/// moment, the minute now acted on and the jobs to start. Jobs are started
/// once, at the first look in a new minute.
pub open spec fn spec_tick(last_minute: Option<u32>, jobs: Seq<CronJob>, now: CronDateTime) -> (
    Option<u32>,
    Seq<usize>,
) {
    if last_minute == Some(now.minute) {
        (last_minute, seq![])
    } else {
        (Some(now.minute), due_jobs(jobs, now, jobs.len()))
    }
}

/// Remembers the minute in which jobs were last started.
pub struct CronScheduler {
    pub last_minute: Option<u32>,
}

impl CronScheduler {
    pub fn new() -> (r: Self)
        ensures
            r.last_minute is None,
    {
        CronScheduler { last_minute: None }
    }

    /// The jobs to start at `now`: none if jobs were already started in this
    /// minute, else every responsive one.
    pub fn tick(&mut self, jobs: &Vec<CronJob>, now: &CronDateTime) -> (r: Vec<usize>)
        requires
            forall|i: int| 0 <= i < jobs@.len() ==> (#[trigger] jobs@[i]).wf(),
            now.wf(),
        ensures
            (final(self).last_minute, r@) == spec_tick(old(self).last_minute, jobs@, *now),
    {
        let mut due: Vec<usize> = Vec::new();
        let current = Some(now.minute);
        if self.last_minute == current {
            return due;
        }
        self.last_minute = current;
        let n = jobs.len();
        let mut i: usize = 0;
        while i < n
            invariant
                n == jobs@.len(),
                i <= n,
                now.wf(),
                forall|j: int| 0 <= j < jobs@.len() ==> (#[trigger] jobs@[j]).wf(),
                due@ == due_jobs(jobs@, *now, i as nat),
            decreases n - i,
        {
            if jobs[i].is_responsive(now) {
                due.push(i);
            }
            i = i + 1;
        }
        due
    }
}

/// Every index that a look at the clock yields names a job that is
/// responsive at that moment, and every responsive job is yielded.
pub proof fn law_due_jobs_are_the_responsive_ones(jobs: Seq<CronJob>, now: CronDateTime, k: nat)
    requires
        k <= jobs.len() <= usize::MAX,
    ensures
        forall|i: int| 0 <= i < due_jobs(jobs, now, k).len() ==> {
            let j = #[trigger] due_jobs(jobs, now, k)[i];
            j < k && jobs[j as int].spec_is_responsive(now)
        },
        forall|j: int| 0 <= j < k && jobs[j].spec_is_responsive(now) ==> due_jobs(
            jobs,
            now,
            k,
        ).contains(j as usize),
    decreases k,
{
    if k > 0 {
        law_due_jobs_are_the_responsive_ones(jobs, now, (k - 1) as nat);
        let before = due_jobs(jobs, now, (k - 1) as nat);
        let after = due_jobs(jobs, now, k);
        assert forall|j: int| 0 <= j < k && jobs[j].spec_is_responsive(now) implies after.contains(
            j as usize,
        ) by {
            if j < k - 1 {
                let m = choose|m: int| 0 <= m < before.len() && before[m] == j as usize;
                assert(after[m] == before[m]);
            } else {
                assert(after == before.push((k - 1) as usize));
                assert(after[before.len() as int] == j as usize);
            }
        }
        assert forall|i: int| 0 <= i < after.len() implies {
            let j = #[trigger] after[i];
            j < k && jobs[j as int].spec_is_responsive(now)
        } by {
            if jobs[k - 1].spec_is_responsive(now) {
                assert(after == before.push((k - 1) as usize));
            } else {
                assert(after == before);
            }
            if i < before.len() {
                assert(after[i] == before[i]);
            }
        }
    }
}

/// No job is started twice in one minute: a second look at the clock in
/// the minute of the first starts nothing.
pub proof fn law_one_start_per_minute(
    last_minute: Option<u32>,
    jobs: Seq<CronJob>,
    first: CronDateTime,
    second: CronDateTime,
)
    requires
        first.minute == second.minute,
    ensures
        spec_tick(spec_tick(last_minute, jobs, first).0, jobs, second).1 == Seq::<usize>::empty(),
{
}

/// A look at the clock in a minute other than the one last acted on starts
/// exactly the jobs that are responsive at that moment, each once and in
/// order, and records the new minute, whatever minute came before.
pub proof fn law_new_minute_starts_the_responsive_jobs(
    last_minute: Option<u32>,
    jobs: Seq<CronJob>,
    now: CronDateTime,
)
    requires
        last_minute != Some(now.minute),
        jobs.len() <= usize::MAX,
    ensures
        spec_tick(last_minute, jobs, now).0 == Some(now.minute),
        spec_tick(last_minute, jobs, now).1 == due_jobs(jobs, now, jobs.len()),
        forall|j: int|
            0 <= j < jobs.len() ==> (spec_tick(last_minute, jobs, now).1.contains(j as usize)
                <==> #[trigger] jobs[j].spec_is_responsive(now)),
        forall|i: int|
            0 <= i < spec_tick(last_minute, jobs, now).1.len() ==> #[trigger] spec_tick(
                last_minute,
                jobs,
                now,
            ).1[i] < jobs.len(),
{
    law_due_jobs_are_the_responsive_ones(jobs, now, jobs.len());
    let started = spec_tick(last_minute, jobs, now).1;
    assert forall|j: int| 0 <= j < jobs.len() && started.contains(j as usize) implies
        #[trigger] jobs[j].spec_is_responsive(now) by {
        let m = choose|m: int| 0 <= m < started.len() && started[m] == j as usize;
        assert(started[m] == j as usize);
    }
}

} // verus!
