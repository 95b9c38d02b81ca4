//! The work queue and the dispatcher that drains it.
//!
//! Jobs are independent units of work: one job's failure is captured as a
//! value and never stops the queue from draining or other jobs from running.
//! The queue hands each job to exactly one caller; an embedding program that
//! runs several workers shares one queue between them and merges the
//! per-worker results afterwards.

use vstd::prelude::*;

verus! {

/// The error a job reports when its update fails.
#[derive(Clone, Debug, PartialEq, Eq)]
pub struct JobError {
    /// What went wrong, as the job chose to describe it.
    pub message: String,
}

/// The terminal outcome of one dispatched job.
#[derive(Debug, PartialEq, Eq)]
pub struct JobResult {
    /// Position of the job in the submitted collection.
    pub job: usize,
    /// Success, or the error the job's update reported.
    pub outcome: Result<(), JobError>,
}

/// The one capability the dispatcher asks of a job: run an update over the
/// given region scope, visiting at most `limit` units per region.
///
/// Implementations own whatever handles they need (storage, HTTP); the
/// dispatcher shares nothing between jobs, so an update may be invoked from
/// any single worker.
pub trait Updater {
    /// Runs the job to completion over `states`, returning success or the
    /// error that ended it.
    fn update(&mut self, states: &Vec<String>, limit: usize) -> Result<(), JobError>;
}

/// An ownership-transferring conveyor of jobs: each job is handed out exactly
/// once, in submission order, and once taken no other caller can receive it.
pub struct WorkQueue<J> {
    jobs: Vec<J>,
}

impl<J> WorkQueue<J> {
    /// The jobs not yet handed out, in the order they will be handed out.
    pub closed spec fn pending(self) -> Seq<J> {
        self.jobs@
    }

    /// Loads the queue with every job up front; nothing can be added later.
    pub fn new(jobs: Vec<J>) -> (q: WorkQueue<J>)
        ensures
            q.pending() == jobs@,
    {
        WorkQueue { jobs }
    }

    /// How many jobs are still pending.
    pub fn remaining(&self) -> (n: usize)
        ensures
            n == self.pending().len(),
    {
        self.jobs.len()
    }

    /// Atomically takes the next pending job, or reports the queue exhausted.
    ///
    /// The taken job is removed from the queue, so no later call can return
    /// it again: ownership moves to the caller.
    pub fn take(&mut self) -> (j: Option<J>)
        ensures
            old(self).pending().len() == 0 ==> j is None && final(self).pending()
                == old(self).pending(),
            old(self).pending().len() > 0 ==> (j matches Some(x) && x == old(self).pending()[0])
                && final(self).pending() == old(self).pending().drop_first(),
    {
        if self.jobs.len() == 0 {
            None
        } else {
            let j = self.jobs.remove(0);
            proof {
                assert(self.jobs@ =~= old(self).jobs@.drop_first());
            }
            Some(j)
        }
    }
}

/// Drains a queue of jobs on the calling worker, invoking each job's update
/// to completion and recording one outcome per job.
///
/// Exactly one result comes back for each submitted job, tagged with the
/// job's position in `updaters`, and a failed update never disturbs the jobs
/// after it. Each recorded outcome is one that a run of that job's update
/// can produce: whatever `ensures` an implementation of [`Updater::update`]
/// carries, every outcome satisfies it. `max_threads` is the worker budget
/// of the embedding program; this routine itself is one worker, and a
/// program that wants several shares a [`WorkQueue`] between threads it owns
/// and merges their collections with [`merge_worker_results`].
pub fn run_clients<J: Updater>(
    updaters: Vec<J>,
    states: &Vec<String>,
    limit: usize,
    max_threads: usize,
) -> (results: Vec<JobResult>)
    requires
        max_threads >= 1,
    ensures
        results@.len() == updaters@.len(),
        forall|i: int| 0 <= i < results@.len() ==> (#[trigger] results@[i]).job == i,
        forall|i: int|
            0 <= i < results@.len() ==> exists|m: &mut J|
                call_ensures(J::update, (m, states, limit), (#[trigger] results@[i]).outcome),
{
    let ghost n = updaters@.len();
    let mut queue = WorkQueue::new(updaters);
    let mut results: Vec<JobResult> = Vec::new();
    loop
        invariant
            queue.pending().len() + results@.len() == n,
            forall|i: int| 0 <= i < results@.len() ==> (#[trigger] results@[i]).job == i,
            forall|i: int|
                0 <= i < results@.len() ==> exists|m: &mut J|
                    call_ensures(J::update, (m, states, limit), (#[trigger] results@[i]).outcome),
        ensures
            results@.len() == n,
            forall|i: int| 0 <= i < results@.len() ==> (#[trigger] results@[i]).job == i,
            forall|i: int|
                0 <= i < results@.len() ==> exists|m: &mut J|
                    call_ensures(J::update, (m, states, limit), (#[trigger] results@[i]).outcome),
        decreases queue.pending().len(),
    {
        let next = queue.take();
        match next {
            None => {
                break ;
            },
            Some(mut job) => {
                let idx = results.len();
                let outcome = job.update(states, limit);
                results.push(JobResult { job: idx, outcome });
            },
        }
    }
    results
}

/// The per-worker collections as sequences of results.
pub open spec fn worker_views(s: Seq<Vec<JobResult>>) -> Seq<Seq<JobResult>> {
    s.map_values(|v: Vec<JobResult>| v@)
}

/// Concatenates per-worker result collections, one after the other.
///
/// The order within each worker's own collection is preserved; across
/// workers the order is simply the order the collections are given in.
pub fn merge_worker_results(per_worker: Vec<Vec<JobResult>>) -> (all: Vec<JobResult>)
    ensures
        all@ == worker_views(per_worker@).flatten(),
{
    let ghost orig = worker_views(per_worker@);
    let mut rest = per_worker;
    let mut all: Vec<JobResult> = Vec::new();
    proof {
        assert(all@ + worker_views(rest@).flatten() =~= orig.flatten());
    }
    loop
        invariant
            orig.flatten() == all@ + worker_views(rest@).flatten(),
        ensures
            rest@.len() == 0,
            orig.flatten() == all@ + worker_views(rest@).flatten(),
        decreases rest@.len(),
    {
        if rest.len() == 0 {
            break ;
        }
        let ghost prev = worker_views(rest@);
        let mut w = rest.remove(0);
        proof {
            assert(worker_views(rest@) =~= prev.drop_first());
            assert(prev.flatten() == prev.first().add(prev.drop_first().flatten()));
            assert(all@ + prev.flatten() =~= (all@ + w@) + worker_views(rest@).flatten());
        }
        while w.len() != 0
            invariant
                orig.flatten() == (all@ + w@) + worker_views(rest@).flatten(),
            decreases w@.len(),
        {
            let ghost all_before = all@;
            let ghost w_before = w@;
            let item = w.remove(0);
            all.push(item);
            proof {
                assert(all@ + w@ =~= all_before + w_before);
            }
        }
        proof {
            assert(all@ + w@ =~= all@);
            assert(all@ + worker_views(rest@).flatten() =~= (all@ + w@) + worker_views(
                rest@,
            ).flatten());
        }
    }
    proof {
        assert(worker_views(rest@) =~= Seq::<Seq<JobResult>>::empty());
        assert(all@ + worker_views(rest@).flatten() =~= all@);
    }
    all
}

} // verus!
