//! One category's queue of pending jobs and the decision that each of its
//! workers takes under the queue's lock.
use std::collections::VecDeque;
use vstd::prelude::*;

verus! {

/// What a worker does after looking at its category's queue.
pub enum WorkerStep<J> {
    /// Run this job, which has just left the front of the queue.
    Run(J),
    /// Nothing is pending and the queue is stopping: the worker exits.
    Exit,
    /// Nothing is pending and the queue still runs: the worker sleeps until notified.
    Wait,
}

/// The step a worker takes on a queue holding `pending` jobs, stopping or not.
pub open spec fn step_of<J>(pending: Seq<J>, stopping: bool) -> WorkerStep<J> {
    if pending.len() > 0 {
        WorkerStep::Run(pending[0])
    } else if stopping {
        WorkerStep::Exit
    } else {
        WorkerStep::Wait
    }
}

/// The jobs that remain pending after a worker's step.
pub open spec fn pending_after_step<J>(pending: Seq<J>) -> Seq<J> {
    if pending.len() > 0 {
        pending.drop_first()
    } else {
        pending
    }
}

/// The pending jobs after `jobs` were pushed one by one at the back.
pub open spec fn push_all<J>(pending: Seq<J>, jobs: Seq<J>) -> Seq<J>
    decreases jobs.len(),
{
    if jobs.len() == 0 {
        pending
    } else {
        push_all(pending.push(jobs[0]), jobs.drop_first())
    }
}

/// The steps taken, one after another, `n` times over, on a queue that
/// receives nothing meanwhile. Each step is taken under the queue's lock and
/// does not depend on which worker takes it, so this is the sequence of steps
/// of the category's workers together, in the order they took the lock.
pub open spec fn worker_trace<J>(pending: Seq<J>, stopping: bool, n: nat) -> Seq<WorkerStep<J>>
    decreases n,
{
    if n == 0 {
        Seq::empty()
    } else {
        seq![step_of(pending, stopping)] + worker_trace(
            pending_after_step(pending),
            stopping,
            (n - 1) as nat,
        )
    }
}

/// Each job, as the step that runs it.
pub open spec fn runs_of<J>(jobs: Seq<J>) -> Seq<WorkerStep<J>> {
    jobs.map_values(|j: J| WorkerStep::Run(j))
}

/// Pushing jobs one by one appends them, in order, behind what was pending.
pub proof fn lemma_push_all_appends<J>(pending: Seq<J>, jobs: Seq<J>)
    ensures
        push_all(pending, jobs) == pending + jobs,
    decreases jobs.len(),
{
    if jobs.len() > 0 {
        lemma_push_all_appends(pending.push(jobs[0]), jobs.drop_first());
        assert(pending.push(jobs[0]) + jobs.drop_first() =~= pending + jobs);
    } else {
        assert(pending + jobs =~= pending);
    }
}

/// The workers run every pending job, front first, in as many steps as
/// there are jobs, whether or not a stop was requested.
pub proof fn lemma_worker_runs_pending<J>(pending: Seq<J>, stopping: bool)
    ensures
        worker_trace(pending, stopping, pending.len()) == runs_of(pending),
    decreases pending.len(),
{
    if pending.len() > 0 {
        lemma_worker_runs_pending(pending.drop_first(), stopping);
        assert(seq![WorkerStep::Run(pending[0])] + runs_of(pending.drop_first()) =~= runs_of(
            pending,
        ));
    } else {
        assert(runs_of(pending) =~= Seq::<WorkerStep<J>>::empty());
    }
}

/// First in, first out: jobs submitted one after another leave the queue in
/// the order of submission, after those already pending. With a single worker
/// they also start in that order.
pub proof fn lemma_fifo_order<J>(pending: Seq<J>, jobs: Seq<J>, stopping: bool)
    ensures
        worker_trace(push_all(pending, jobs), stopping, pending.len() + jobs.len()) == runs_of(
            pending + jobs,
        ),
{
    lemma_push_all_appends(pending, jobs);
    lemma_worker_runs_pending(pending + jobs, stopping);
}

/// Drain before stop: once a stop is requested, the workers still run every
/// pending job, in order, and the first exit comes only at the step after the
/// last one. With nothing pending a worker exits at once.
pub proof fn lemma_drain_before_stop<J>(pending: Seq<J>)
    ensures
        worker_trace(pending, true, pending.len() + 1) == runs_of(pending).push(WorkerStep::Exit),
    decreases pending.len(),
{
    if pending.len() > 0 {
        lemma_drain_before_stop(pending.drop_first());
        assert(seq![WorkerStep::Run(pending[0])] + runs_of(pending.drop_first()).push(
            WorkerStep::Exit,
        ) =~= runs_of(pending).push(WorkerStep::Exit));
    } else {
        assert(worker_trace(pending, true, 0) =~= Seq::<WorkerStep<J>>::empty());
        assert(runs_of(pending) =~= Seq::<WorkerStep<J>>::empty());
        assert(worker_trace(pending, true, 1) =~= seq![WorkerStep::<J>::Exit]);
    }
}

/// Shutting down a queue that received no job: its worker exits at its very
/// first step, without waiting.
pub proof fn lemma_idle_shutdown<J>()
    ensures
        worker_trace(Seq::<J>::empty(), true, 1) == seq![WorkerStep::<J>::Exit],
{
    lemma_drain_before_stop(Seq::<J>::empty());
    assert(runs_of(Seq::<J>::empty()) =~= Seq::<WorkerStep<J>>::empty());
    assert(Seq::<WorkerStep<J>>::empty().push(WorkerStep::<J>::Exit) =~= seq![WorkerStep::<J>::Exit]);
}

/// Mutable state of one category's queue: pending jobs, front first, and a
/// stop flag that is raised once and never lowered.
pub struct JobQueueState<J> {
    jobs: VecDeque<J>,
    should_stop: bool,
}

impl<J> JobQueueState<J> {
    /// The pending jobs, front first.
    pub closed spec fn pending(&self) -> Seq<J> {
        self.jobs@
    }

    /// Whether a stop has been requested.
    pub closed spec fn stopping(&self) -> bool {
        self.should_stop
    }

    /// An empty, running queue.
    pub fn new() -> (r: Self)
        ensures
            r.pending() == Seq::<J>::empty(),
            !r.stopping(),
    {
        JobQueueState { jobs: VecDeque::new(), should_stop: false }
    }

    /// Appends a job at the back. A stopping queue still takes jobs: they are
    /// drained before its workers exit.
    pub fn push_job(&mut self, job: J)
        ensures
            final(self).pending() == old(self).pending().push(job),
            final(self).stopping() == old(self).stopping(),
    {
        self.jobs.push_back(job);
    }

    /// Raises the stop flag; the pending jobs stay.
    pub fn request_stop(&mut self)
        ensures
            final(self).pending() == old(self).pending(),
            final(self).stopping(),
    {
        self.should_stop = true;
    }

    /// Number of pending jobs.
    pub fn len(&self) -> (r: usize)
        ensures
            r == self.pending().len(),
    {
        self.jobs.len()
    }

    /// Whether a stop has been requested.
    pub fn is_stopping(&self) -> (r: bool)
        ensures
            r == self.stopping(),
    {
        self.should_stop
    }

    /// Whether a worker has nothing to do but sleep: no pending job and no stop.
    pub fn is_idle(&self) -> (r: bool)
        ensures
            r == (self.pending().len() == 0 && !self.stopping()),
    {
        self.jobs.len() == 0 && !self.should_stop
    }

    /// A worker's decision: take the front job if there is one; otherwise exit
    /// when stopping, or wait.
    pub fn next_step(&mut self) -> (r: WorkerStep<J>)
        ensures
            r == step_of(old(self).pending(), old(self).stopping()),
            final(self).pending() == pending_after_step(old(self).pending()),
            final(self).stopping() == old(self).stopping(),
    {
        match self.jobs.pop_front() {
            Some(job) => WorkerStep::Run(job),
            None => {
                if self.should_stop {
                    WorkerStep::Exit
                } else {
                    WorkerStep::Wait
                }
            },
        }
    }
}

} // verus!
