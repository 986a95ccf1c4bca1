//! The bounded download queue's submission discipline.
//!
//! Up to a configured number of fetch jobs are in flight at once. A caller
//! at capacity first takes one completed job out, and only then submits the
//! next; completions surface in any order, each exactly once. The jobs'
//! actual execution happens outside the library, one task per submitted job.

use vstd::prelude::*;
use crate::sites::FetchJob;

verus! {

/// The in-flight jobs of one run, bounded by the concurrency limit.
#[derive(Debug)]
pub struct TaskQueue {
    /// The concurrency limit.
    limit: usize,

    /// The jobs currently in flight.
    jobs: Vec<FetchJob>,
}

impl TaskQueue {
    /// The configured concurrency limit.
    pub closed spec fn spec_limit(&self) -> usize {
        self.limit
    }

    /// The jobs currently in flight, in submission order.
    pub closed spec fn spec_jobs(&self) -> Seq<FetchJob> {
        self.jobs@
    }

    /// The queue's invariant: a limit in the sane range, and never more
    /// in-flight jobs than the limit allows.
    pub open spec fn wf(&self) -> bool {
        &&& 1 <= self.spec_limit() <= 1000
        &&& self.spec_jobs().len() <= self.spec_limit()
    }

    /// An empty queue with the given concurrency limit.
    pub fn new(limit: usize) -> (q: TaskQueue)
        requires
            1 <= limit <= 1000,
        ensures
            q.wf(),
            q.spec_limit() == limit,
            q.spec_jobs().len() == 0,
    {
        TaskQueue { limit, jobs: Vec::new() }
    }

    /// The number of in-flight jobs.
    pub fn len(&self) -> (n: usize)
        ensures
            n == self.spec_jobs().len(),
    {
        self.jobs.len()
    }

    /// Whether the queue is at capacity: one in-flight job must complete
    /// before another may be submitted.
    pub fn is_full(&self) -> (r: bool)
        ensures
            r == (self.spec_jobs().len() == self.spec_limit()),
    {
        self.jobs.len() == self.limit
    }

    /// Submits one job; only a queue below capacity accepts it.
    pub fn submit(&mut self, job: FetchJob)
        requires
            old(self).wf(),
            old(self).spec_jobs().len() < old(self).spec_limit(),
        ensures
            final(self).wf(),
            final(self).spec_limit() == old(self).spec_limit(),
            final(self).spec_jobs() == old(self).spec_jobs().push(job),
    {
        self.jobs.push(job);
    }

    /// Takes one completed job out. Completions surface in any order, so
    /// the caller names which in-flight job finished; each job leaves the
    /// queue exactly once.
    pub fn complete(&mut self, index: usize) -> (job: FetchJob)
        requires
            old(self).wf(),
            index < old(self).spec_jobs().len(),
        ensures
            final(self).wf(),
            final(self).spec_limit() == old(self).spec_limit(),
            final(self).spec_jobs() == old(self).spec_jobs().remove(index as int),
            job == old(self).spec_jobs()[index as int],
    {
        self.jobs.remove(index)
    }
}

/// With concurrency limit N, the number of in-flight jobs never exceeds N.
/// A caller at capacity completes exactly one job first — whichever
/// finishes — and the one submission that follows fills the queue back to
/// exactly N, never beyond it.
pub proof fn lemma_submit_at_capacity(jobs: Seq<FetchJob>, limit: int, index: int, job: FetchJob)
    requires
        1 <= limit,
        jobs.len() == limit,
        0 <= index < jobs.len(),
    ensures
        jobs.remove(index).len() < limit,
        jobs.remove(index).push(job).len() == limit,
{
}

} // verus!
