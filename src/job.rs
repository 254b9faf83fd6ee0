//! Receipts of submitted jobs, and the list of jobs that a scope joins
//! before it returns.
use vstd::prelude::*;

verus! {

/// Why a job produced no value.
#[derive(Clone, Copy, PartialEq, Eq, Structural, Debug)]
pub enum JobError {
    /// The job's body failed abnormally; its worker caught the failure.
    Panicked,
}

/// The receiving half of a std channel, carried through unopened.
#[verifier::external_type_specification]
#[verifier::external_body]
#[verifier::reject_recursive_types(T)]
pub struct ExReceiver<T>(std::sync::mpsc::Receiver<T>);

/// Relies on `std::sync::mpsc::Receiver::recv`: it blocks until a value
/// arrives, and fails once the sending half is gone with nothing sent.
#[verifier::external_body]
fn receive<T>(receiver: &std::sync::mpsc::Receiver<T>) -> (r: Option<T>) {
    receiver.recv().ok()
}

/// What a waiter makes of what came over the result channel: the job's own
/// outcome, or a failure when the channel closed with nothing sent, as it
/// does when the job died before delivering.
pub fn settle<T>(received: Option<Result<T, JobError>>) -> (r: Result<T, JobError>)
    ensures
        r == match received {
            Some(outcome) => outcome,
            None => Err(JobError::Panicked),
        },
{
    match received {
        Some(outcome) => outcome,
        None => Err(JobError::Panicked),
    }
}

/// The caller's receipt for a submitted job: `wait` blocks until the job's
/// outcome is there and hands it over. It is consumed by `wait`, so it is
/// waited on at most once.
#[verifier::reject_recursive_types(T)]
pub struct JobHandle<T> {
    receiver: std::sync::mpsc::Receiver<Result<T, JobError>>,
}

impl<T> JobHandle<T> {
    /// A receipt that waits on the receiving half of the job's result channel.
    pub fn new(receiver: std::sync::mpsc::Receiver<Result<T, JobError>>) -> (r: Self)
        ensures
            r.receiver() == receiver,
    {
        JobHandle { receiver }
    }

    pub closed spec fn receiver(&self) -> std::sync::mpsc::Receiver<Result<T, JobError>> {
        self.receiver
    }

    /// Blocks until the job has finished and returns its outcome. A job that
    /// ended without delivering one counts as failed, so this never hangs
    /// on a job that died.
    pub fn wait(self) -> (r: Result<T, JobError>)
        ensures
            r matches Err(e) ==> e == JobError::Panicked,
    {
        settle(receive(&self.receiver))
    }
}

/// Receipt of a job submitted through a scope: the scope joins it before it
/// returns.
pub struct ScopedJobHandle {
    job_handle: JobHandle<()>,
}

impl ScopedJobHandle {
    pub fn new(job_handle: JobHandle<()>) -> (r: Self)
        ensures
            r.job_handle() == job_handle,
    {
        ScopedJobHandle { job_handle }
    }

    pub closed spec fn job_handle(&self) -> JobHandle<()> {
        self.job_handle
    }

    /// Blocks until the job has finished.
    pub fn join(self) -> (r: Result<(), JobError>)
        ensures
            r matches Err(e) ==> e == JobError::Panicked,
    {
        self.job_handle.wait()
    }
}

/// The handles of the jobs submitted through one scope, in order of
/// submission, until the scope joins them.
pub struct ScopeLedger<H> {
    handles: Vec<H>,
}

impl<H> ScopeLedger<H> {
    pub closed spec fn outstanding(&self) -> Seq<H> {
        self.handles@
    }

    /// A scope with nothing submitted.
    pub fn new() -> (r: Self)
        ensures
            r.outstanding() == Seq::<H>::empty(),
    {
        ScopeLedger { handles: Vec::new() }
    }

    /// Records the handle of a job just submitted.
    pub fn record(&mut self, handle: H)
        ensures
            final(self).outstanding() == old(self).outstanding().push(handle),
    {
        self.handles.push(handle);
    }

    /// Number of jobs not yet joined.
    pub fn len(&self) -> (r: usize)
        ensures
            r == self.outstanding().len(),
    {
        self.handles.len()
    }

    /// Hands every outstanding handle over for joining, in order of
    /// submission, and leaves the scope with none.
    pub fn take_all(&mut self) -> (r: Vec<H>)
        ensures
            r@ == old(self).outstanding(),
            final(self).outstanding() == Seq::<H>::empty(),
    {
        let mut handles = Vec::new();
        std::mem::swap(&mut self.handles, &mut handles);
        handles
    }
}

/// Whether every outcome is a success.
pub open spec fn all_succeeded(outcomes: Seq<Result<(), JobError>>) -> bool {
    forall|i: int| 0 <= i < outcomes.len() ==> #[trigger] outcomes[i] is Ok
}

/// The outcome of a scope from those of its jobs: success when every job
/// succeeded, else a failure.
pub fn combine_outcomes(outcomes: &Vec<Result<(), JobError>>) -> (r: Result<(), JobError>)
    ensures
        r == if all_succeeded(outcomes@) {
            Ok::<(), JobError>(())
        } else {
            Err::<(), JobError>(JobError::Panicked)
        },
{
    let mut i: usize = 0;
    while i < outcomes.len()
        invariant
            0 <= i <= outcomes@.len(),
            forall|k: int| 0 <= k < i ==> #[trigger] outcomes@[k] is Ok,
        decreases outcomes@.len() - i,
    {
        if outcomes[i].is_err() {
            return Err(JobError::Panicked);
        }
        i = i + 1;
    }
    Ok(())
}

impl ScopeLedger<ScopedJobHandle> {
    /// Waits for every outstanding job of the scope, one join per job and
    /// whatever the outcome of each, and leaves none outstanding. Fails when
    /// any job failed.
    pub fn join_all(&mut self) -> (r: Result<(), JobError>)
        ensures
            final(self).outstanding() == Seq::<ScopedJobHandle>::empty(),
            exists|outcomes: Seq<Result<(), JobError>>|
                outcomes.len() == old(self).outstanding().len() && r == if all_succeeded(
                    outcomes,
                ) {
                    Ok::<(), JobError>(())
                } else {
                    Err::<(), JobError>(JobError::Panicked)
                },
    {
        let mut handles = self.take_all();
        let n = handles.len();
        let mut outcomes: Vec<Result<(), JobError>> = Vec::new();
        while handles.len() > 0
            invariant
                outcomes@.len() + handles@.len() == n,
            decreases handles@.len(),
        {
            match handles.pop() {
                Some(handle) => outcomes.push(handle.join()),
                None => {},
            }
        }
        let r = combine_outcomes(&outcomes);
        proof {
            assert(outcomes@.len() == old(self).outstanding().len());
        }
        r
    }
}

} // verus!
