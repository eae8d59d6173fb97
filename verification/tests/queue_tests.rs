use worker_pool::queue::JobQueue;
use worker_pool::queue::RecvOutcome;

#[test]
fn new_queue_is_open_and_empty() {
    let mut q = JobQueue::new();
    assert!(q.open);
    assert_eq!(q.jobs.len(), 0);
    assert_eq!(q.recv(), RecvOutcome::Empty);
    assert!(q.open);
}

#[test]
fn recv_is_first_in_first_out() {
    let mut q = JobQueue::new();
    q.send(5);
    q.send(7);
    q.send(9);
    assert_eq!(q.recv(), RecvOutcome::Job { id: 5 });
    assert_eq!(q.recv(), RecvOutcome::Job { id: 7 });
    q.send(11);
    assert_eq!(q.recv(), RecvOutcome::Job { id: 9 });
    assert_eq!(q.recv(), RecvOutcome::Job { id: 11 });
    assert_eq!(q.recv(), RecvOutcome::Empty);
}

#[test]
fn closed_queue_drains_then_disconnects() {
    let mut q = JobQueue::new();
    q.send(1);
    q.send(2);
    q.close();
    assert!(!q.open);
    assert_eq!(q.recv(), RecvOutcome::Job { id: 1 });
    assert_eq!(q.recv(), RecvOutcome::Job { id: 2 });
    assert_eq!(q.recv(), RecvOutcome::Disconnected);
    // the failure is permanent: a closed queue never reopens
    assert_eq!(q.recv(), RecvOutcome::Disconnected);
    assert!(!q.open);
}

#[test]
fn close_is_idempotent() {
    let mut q = JobQueue::new();
    q.close();
    q.close();
    assert!(!q.open);
    assert_eq!(q.recv(), RecvOutcome::Disconnected);
}
