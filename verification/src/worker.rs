use vstd::prelude::*;

verus! {

/// Where a worker stands in its receive-execute loop.
#[derive(Debug, Clone, Copy, PartialEq, Eq, Structural)]
pub enum WorkerState {
    /// Waiting to claim the next job from the queue.
    Listening,
    /// Running the job it claimed, to completion.
    Executing { job: usize },
    /// Out of the loop for good: the queue closed, a job it ran
    /// panicked, or the shared receive lock was found poisoned.
    Terminated,
}

/// What a worker observes during one turn of its loop.
#[derive(Debug, Clone, Copy, PartialEq, Eq, Structural)]
pub enum WorkerEvent {
    /// A receive succeeded and handed over this job.
    JobReceived { job: usize },
    /// The job it was running finished normally.
    JobFinished,
    /// The job it was running panicked; the worker's thread dies with it.
    JobPanicked,
    /// A receive failed because the queue is closed and drained.
    QueueClosed,
    /// Acquiring the shared receive lock failed because a peer worker
    /// panicked while holding it; this worker fails loudly too.
    LockPoisoned,
}

/// The worker loop as a transition function: given the state a worker is
/// in and the event it observes, the state it moves to.
///
/// Listening moves to Executing on a received job and to Terminated when
/// the queue closes or the lock is poisoned; Executing moves back to
/// Listening when its job finishes and to Terminated when the job
/// panicks. Terminated is absorbing. An event that cannot occur in a
/// state leaves the state unchanged.
pub open spec fn next_state(s: WorkerState, e: WorkerEvent) -> WorkerState {
    match s {
        WorkerState::Listening => match e {
            WorkerEvent::JobReceived { job } => WorkerState::Executing { job },
            WorkerEvent::QueueClosed => WorkerState::Terminated,
            WorkerEvent::LockPoisoned => WorkerState::Terminated,
            _ => WorkerState::Listening,
        },
        WorkerState::Executing { job } => match e {
            WorkerEvent::JobFinished => WorkerState::Listening,
            WorkerEvent::JobPanicked => WorkerState::Terminated,
            _ => WorkerState::Executing { job },
        },
        WorkerState::Terminated => WorkerState::Terminated,
    }
}

/// Runs one transition of the worker loop.
pub fn step(s: WorkerState, e: WorkerEvent) -> (r: WorkerState)
    ensures
        r == next_state(s, e),
{
    match s {
        WorkerState::Listening => match e {
            WorkerEvent::JobReceived { job } => WorkerState::Executing { job },
            WorkerEvent::QueueClosed => WorkerState::Terminated,
            WorkerEvent::LockPoisoned => WorkerState::Terminated,
            _ => WorkerState::Listening,
        },
        WorkerState::Executing { job } => match e {
            WorkerEvent::JobFinished => WorkerState::Listening,
            WorkerEvent::JobPanicked => WorkerState::Terminated,
            _ => WorkerState::Executing { job },
        },
        WorkerState::Terminated => WorkerState::Terminated,
    }
}

/// Once a worker has terminated, no event revives it: it is never
/// replaced, and the pool's effective capacity stays reduced.
pub proof fn lemma_terminated_absorbing(e: WorkerEvent)
    ensures
        next_state(WorkerState::Terminated, e) == WorkerState::Terminated,
{
}

/// One worker of the pool: a small integer identity and the state of its
/// execution thread.
pub struct Worker {
    /// The worker's position in the pool, `0 .. size`.
    pub id: usize,
    /// Where its thread stands in the receive-execute loop.
    pub state: WorkerState,
}

impl Worker {
    /// Whether the worker's thread is still running its loop.
    pub open spec fn is_live(self) -> bool {
        !(self.state is Terminated)
    }

    /// Whether the worker is running a job right now.
    pub open spec fn is_executing(self) -> bool {
        self.state is Executing
    }

    /// The job the worker is running, meaningful only while executing.
    pub open spec fn current_job(self) -> usize
        recommends
            self.is_executing(),
    {
        self.state->job
    }

    /// Creates a worker that is listening for its first job.
    pub fn new(id: usize) -> (w: Worker)
        ensures
            w.id == id,
            w.state == WorkerState::Listening,
    {
        Worker { id, state: WorkerState::Listening }
    }
}

} // verus!
