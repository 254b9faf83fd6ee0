use std::sync::atomic::AtomicUsize;
use std::sync::atomic::Ordering;
use std::sync::mpsc::channel;
use std::sync::Arc;

use engine::job::JobError;
use engine::job::JobHandle;
use engine::job::ScopeLedger;
use engine::job::ScopedJobHandle;

fn run_job<T, F: FnOnce() -> T>(f: F) -> JobHandle<T> {
    let (tx, rx) = channel();
    let _ = tx.send(Ok(f()));
    JobHandle::new(rx)
}

#[test]
fn each_handle_yields_its_own_job_value() {
    let handles: Vec<JobHandle<usize>> = (0..16).map(|i| run_job(move || i * i)).collect();
    for (i, handle) in handles.into_iter().enumerate().rev() {
        assert_eq!(Ok(i * i), handle.wait());
    }
}

#[test]
fn handle_of_job_that_died_resolves_with_error() {
    let (tx, rx) = channel::<Result<u8, JobError>>();
    drop(tx);
    assert_eq!(Err(JobError::Panicked), JobHandle::new(rx).wait());
}

#[test]
fn scope_joins_every_job_before_returning() {
    for k in [1usize, 5, 100] {
        let counters: Arc<Vec<AtomicUsize>> = Arc::new((0..k).map(|_| AtomicUsize::new(0)).collect());
        let mut ledger = ScopeLedger::new();
        for i in 0..k {
            let counters = counters.clone();
            let handle = run_job(move || {
                counters[i].fetch_add(1, Ordering::SeqCst);
            });
            ledger.record(ScopedJobHandle::new(handle));
        }
        assert_eq!(k, ledger.len());
        assert_eq!(Ok(()), ledger.join_all());
        assert_eq!(0, ledger.len());
        for c in counters.iter() {
            assert_eq!(1, c.load(Ordering::SeqCst));
        }
    }
}

#[test]
fn scope_reports_a_failed_job() {
    let mut ledger = ScopeLedger::new();
    let (tx, rx) = channel::<Result<(), JobError>>();
    drop(tx);
    ledger.record(ScopedJobHandle::new(JobHandle::new(rx)));
    ledger.record(ScopedJobHandle::new(run_job(|| ())));
    assert_eq!(Err(JobError::Panicked), ledger.join_all());
    assert_eq!(0, ledger.len());
}

#[test]
fn take_all_hands_over_in_submission_order() {
    let mut ledger = ScopeLedger::new();
    ledger.record('a');
    ledger.record('b');
    ledger.record('c');
    assert_eq!(vec!['a', 'b', 'c'], ledger.take_all());
    assert_eq!(0, ledger.len());
}

#[test]
fn settle_passes_outcome_through_or_reports_failure() {
    assert_eq!(Ok(3), engine::job::settle(Some(Ok(3))));
    assert_eq!(Err(JobError::Panicked), engine::job::settle::<u8>(Some(Err(JobError::Panicked))));
    assert_eq!(Err(JobError::Panicked), engine::job::settle::<u8>(None));
}

#[test]
fn scope_outcome_combines_job_outcomes() {
    assert_eq!(Ok(()), engine::job::combine_outcomes(&Vec::new()));
    assert_eq!(Ok(()), engine::job::combine_outcomes(&vec![Ok(()), Ok(())]));
    assert_eq!(
        Err(JobError::Panicked),
        engine::job::combine_outcomes(&vec![Ok(()), Err(JobError::Panicked), Ok(())])
    );
}
