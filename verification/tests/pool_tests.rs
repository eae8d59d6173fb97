use worker_pool::error::PoolCreationError;
use worker_pool::pool::ThreadPool;
use worker_pool::queue::RecvOutcome;
use worker_pool::worker::WorkerState;

fn is_terminated(p: &ThreadPool, w: usize) -> bool {
    matches!(p.workers[w].state, WorkerState::Terminated)
}

fn is_listening(p: &ThreadPool, w: usize) -> bool {
    matches!(p.workers[w].state, WorkerState::Listening)
}

fn executing_job(p: &ThreadPool, w: usize) -> Option<usize> {
    match p.workers[w].state {
        WorkerState::Executing { job } => Some(job),
        _ => None,
    }
}

#[test]
fn build_makes_size_live_workers() {
    for size in [1usize, 2, 8] {
        let p = ThreadPool::build(size).unwrap();
        assert_eq!(p.workers.len(), size);
        for w in 0..size {
            assert_eq!(p.workers[w].id, w);
            assert!(is_listening(&p, w));
        }
        assert!(p.sender.is_some());
        assert_eq!(p.submitted, 0);
        assert_eq!(p.queue.jobs.len(), 0);
    }
}

#[test]
fn build_zero_fails_with_invalid_size() {
    let r = ThreadPool::build(0);
    match r {
        Ok(_) => panic!("a pool of zero workers must be rejected"),
        Err(e) => {
            assert_eq!(e, PoolCreationError::InvalidSize);
            assert_eq!(e.message(), "InvalidSize");
        }
    }
}

#[test]
fn execute_assigns_sequential_ids_and_queues_in_order() {
    let mut p = ThreadPool::build(2).unwrap();
    assert_eq!(p.execute(), 0);
    assert_eq!(p.execute(), 1);
    assert_eq!(p.execute(), 2);
    assert_eq!(p.submitted, 3);
    assert_eq!(p.queue.jobs, vec![0, 1, 2]);
}

#[test]
fn every_job_runs_exactly_once() {
    let mut p = ThreadPool::build(2).unwrap();
    for _ in 0..3 {
        p.execute();
    }
    assert_eq!(p.worker_poll(0), RecvOutcome::Job { id: 0 });
    assert_eq!(p.worker_poll(1), RecvOutcome::Job { id: 1 });
    p.finish(0);
    assert_eq!(p.worker_poll(0), RecvOutcome::Job { id: 2 });
    p.finish(1);
    p.finish(0);
    assert_eq!(p.started, vec![0, 1, 2]);
    assert_eq!(p.completed.len(), 3);
    for id in 0..3usize {
        assert_eq!(p.completed.iter().filter(|j| **j == id).count(), 1);
    }
    assert_eq!(p.queue.jobs.len(), 0);
}

#[test]
fn two_workers_hold_distinct_jobs_at_once() {
    let mut p = ThreadPool::build(2).unwrap();
    p.execute();
    p.execute();
    assert_eq!(p.worker_poll(0), RecvOutcome::Job { id: 0 });
    assert_eq!(p.worker_poll(1), RecvOutcome::Job { id: 1 });
    // both workers are mid-execution at the same time, on different jobs
    let j0 = executing_job(&p, 0).unwrap();
    let j1 = executing_job(&p, 1).unwrap();
    assert_ne!(j0, j1);
}

#[test]
fn poll_on_an_empty_open_queue_blocks_and_changes_nothing() {
    let mut p = ThreadPool::build(1).unwrap();
    assert_eq!(p.worker_poll(0), RecvOutcome::Empty);
    assert!(is_listening(&p, 0));
    assert!(p.sender.is_some());
}

#[test]
fn shutdown_completes_dispatched_jobs_before_returning() {
    let mut p = ThreadPool::build(2).unwrap();
    p.execute();
    p.execute();
    assert_eq!(p.worker_poll(0), RecvOutcome::Job { id: 0 });
    assert_eq!(p.worker_poll(1), RecvOutcome::Job { id: 1 });
    p.shutdown();
    assert!(p.sender.is_none());
    assert!(p.completed.contains(&0));
    assert!(p.completed.contains(&1));
    for w in 0..2 {
        assert!(is_terminated(&p, w));
    }
}

#[test]
fn excess_jobs_queue_up_and_still_all_run() {
    let mut p = ThreadPool::build(1).unwrap();
    p.execute();
    p.execute();
    p.execute();
    // one worker, three jobs: two wait in the queue
    assert_eq!(p.queue.jobs.len(), 3);
    p.shutdown();
    assert_eq!(p.queue.jobs.len(), 0);
    assert_eq!(p.completed, vec![0, 1, 2]);
}

#[test]
fn four_jobs_on_two_workers_count_to_four() {
    let mut p = ThreadPool::build(2).unwrap();
    for _ in 0..4 {
        p.execute();
    }
    p.shutdown();
    // each job "increments the counter" exactly once
    assert_eq!(p.completed.len(), 4);
    for id in 0..4usize {
        assert!(p.completed.contains(&id));
    }
    assert!(p.failed.is_empty());
}

#[test]
fn shutdown_is_a_no_op_the_second_time() {
    let mut p = ThreadPool::build(1).unwrap();
    p.execute();
    p.shutdown();
    let workers_before: Vec<_> = p.workers.iter().map(|w| (w.id, w.state)).collect();
    let completed_before = p.completed.clone();
    p.shutdown();
    let workers_after: Vec<_> = p.workers.iter().map(|w| (w.id, w.state)).collect();
    assert_eq!(workers_before, workers_after);
    assert_eq!(completed_before, p.completed);
    assert!(p.sender.is_none());
}

#[test]
fn panicking_job_kills_its_worker_for_good() {
    let mut p = ThreadPool::build(1).unwrap();
    p.execute();
    p.execute();
    assert_eq!(p.worker_poll(0), RecvOutcome::Job { id: 0 });
    p.job_panicked(0);
    // the worker is gone and nobody replaces it
    assert_eq!(p.workers.len(), 1);
    assert!(is_terminated(&p, 0));
    assert_eq!(p.failed, vec![0]);
    p.shutdown();
    // the second job never completes: no worker is left to claim it
    assert_eq!(p.queue.jobs, vec![1]);
    assert!(p.completed.is_empty());
}
