use engine::job_queue::JobQueueState;
use engine::job_queue::WorkerStep;

fn run_lone_worker(queue: &mut JobQueueState<u32>) -> (Vec<u32>, bool) {
    let mut ran = Vec::new();
    loop {
        match queue.next_step() {
            WorkerStep::Run(job) => ran.push(job),
            WorkerStep::Exit => return (ran, true),
            WorkerStep::Wait => return (ran, false),
        }
    }
}

#[test]
fn single_worker_starts_jobs_in_submission_order() {
    let mut queue = JobQueueState::new();
    queue.push_job(1);
    queue.push_job(2);
    queue.push_job(3);
    let (ran, exited) = run_lone_worker(&mut queue);
    assert_eq!(vec![1, 2, 3], ran);
    assert!(!exited);
}

#[test]
fn empty_running_queue_makes_worker_wait() {
    let mut queue: JobQueueState<u32> = JobQueueState::new();
    assert!(queue.is_idle());
    assert!(matches!(queue.next_step(), WorkerStep::Wait));
    assert_eq!(0, queue.len());
}

#[test]
fn empty_stopped_queue_makes_worker_exit_at_once() {
    let mut queue: JobQueueState<u32> = JobQueueState::new();
    queue.request_stop();
    assert!(!queue.is_idle());
    assert!(matches!(queue.next_step(), WorkerStep::Exit));
    assert!(matches!(queue.next_step(), WorkerStep::Exit));
}

#[test]
fn stop_drains_every_pending_job_first() {
    for m in [1u32, 5, 100] {
        let mut queue = JobQueueState::new();
        for j in 0..m {
            queue.push_job(j);
        }
        queue.request_stop();
        let (ran, exited) = run_lone_worker(&mut queue);
        assert_eq!((0..m).collect::<Vec<u32>>(), ran);
        assert!(exited);
        assert_eq!(0, queue.len());
    }
}

#[test]
fn stopping_queue_still_takes_jobs_and_stays_stopping() {
    let mut queue = JobQueueState::new();
    queue.request_stop();
    queue.push_job(7);
    assert!(queue.is_stopping());
    assert_eq!(1, queue.len());
    assert!(matches!(queue.next_step(), WorkerStep::Run(7)));
    assert!(queue.is_stopping());
    assert!(matches!(queue.next_step(), WorkerStep::Exit));
}
