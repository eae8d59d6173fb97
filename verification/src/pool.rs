use vstd::prelude::*;
use vstd::pervasive::VecAdditionalExecFns;

use crate::error::PoolCreationError;
use crate::queue::{JobQueue, RecvOutcome};
use crate::worker::{Worker, WorkerState};

verus! {

/// The producer side of the job queue, held by the pool and relinquished
/// exactly once at teardown. While the pool holds it, the queue is open.
pub struct ProducerHandle {}

/// A fixed-size pool of workers sharing one job queue.
///
/// Jobs are identified by submission order: the `n`th call to `execute`
/// submits job `n`. The pool records, for every submitted job, where it
/// stands: still pending in the queue, in exactly one worker's hands,
/// completed, or lost to a panicking execution. `wf` is the pool's
/// invariant; every operation requires and preserves it.
pub struct ThreadPool {
    /// The workers, in construction order; worker `i` has id `i`.
    pub workers: Vec<Worker>,
    /// The producer side of the queue, present until teardown
    /// relinquishes it (exactly once).
    pub sender: Option<ProducerHandle>,
    /// The shared job queue.
    pub queue: JobQueue,
    /// How many jobs have been submitted; they carry ids `0 .. submitted`.
    pub submitted: usize,
    /// The ids claimed by workers so far, in claim order.
    pub started: Vec<usize>,
    /// The ids whose execution ran to completion, in completion order.
    pub completed: Vec<usize>,
    /// The ids whose execution panicked, killing their worker's thread.
    pub failed: Vec<usize>,
}

impl ThreadPool {
    /// The number of workers the pool was built with.
    pub open spec fn size(self) -> nat {
        self.workers@.len()
    }

    /// Whether the pool still holds the producer side of the queue,
    /// i.e. has not been torn down.
    pub open spec fn is_live(self) -> bool {
        self.sender is Some
    }

    /// The ids of every job submitted so far, in submission order.
    pub open spec fn submitted_seq(self) -> Seq<usize> {
        Seq::new(self.submitted as nat, |i: int| i as usize)
    }

    /// Whether some worker's thread is still running its loop.
    pub open spec fn has_live_worker(self) -> bool {
        exists|i: int| 0 <= i < self.workers@.len() && (#[trigger] self.workers@[i]).is_live()
    }

    /// The pool's invariant.
    ///
    /// The queue is open exactly while the producer handle is held; the
    /// started ids followed by the pending ids are exactly the submitted
    /// ids in submission order (no job is lost, duplicated, or invented);
    /// a worker only ever holds a started job and no two workers hold the
    /// same one; and the completion and failure records list started
    /// jobs, each at most once, never both, and never one still in a
    /// worker's hands.
    pub open spec fn wf(self) -> bool {
        &&& self.workers@.len() >= 1
        &&& self.queue.is_open() == self.is_live()
        &&& forall|i: int|
            0 <= i < self.workers@.len() ==> (#[trigger] self.workers@[i]).id == i
        &&& self.started@.len() + self.queue.pending().len() == self.submitted
        &&& forall|i: int| 0 <= i < self.started@.len() ==> #[trigger] self.started@[i] == i
        &&& forall|i: int|
            0 <= i < self.queue.pending().len() ==> #[trigger] self.queue.pending()[i]
                == self.started@.len() + i
        &&& forall|i: int|
            0 <= i < self.workers@.len() && (#[trigger] self.workers@[i]).is_executing()
                ==> self.workers@[i].current_job() < self.started@.len()
        &&& forall|i: int, k: int|
            0 <= i < self.workers@.len() && 0 <= k < self.workers@.len() && i != k
                && (#[trigger] self.workers@[i]).is_executing()
                && (#[trigger] self.workers@[k]).is_executing()
                ==> self.workers@[i].current_job() != self.workers@[k].current_job()
        &&& forall|i: int|
            0 <= i < self.completed@.len() ==> #[trigger] self.completed@[i] < self.started@.len()
        &&& forall|i: int|
            0 <= i < self.failed@.len() ==> #[trigger] self.failed@[i] < self.started@.len()
        &&& self.completed@.no_duplicates()
        &&& self.failed@.no_duplicates()
        &&& forall|j: usize|
            self.completed@.contains(j) ==> !self.failed@.contains(j)
        &&& forall|i: int|
            0 <= i < self.workers@.len() && (#[trigger] self.workers@[i]).is_executing()
                ==> !self.completed@.contains(self.workers@[i].current_job())
                    && !self.failed@.contains(self.workers@[i].current_job())
    }

    /// A pool as `build` hands it out: well formed, live, with `size`
    /// workers all listening and nothing submitted yet.
    pub open spec fn is_fresh(self, size: usize) -> bool {
        &&& self.wf()
        &&& self.size() == size
        &&& self.is_live()
        &&& self.submitted == 0
        &&& self.queue.pending() == Seq::<usize>::empty()
        &&& self.started@ == Seq::<usize>::empty()
        &&& self.completed@ == Seq::<usize>::empty()
        &&& self.failed@ == Seq::<usize>::empty()
        &&& forall|i: int|
            0 <= i < self.workers@.len() ==> (#[trigger] self.workers@[i]).state
                == WorkerState::Listening
    }

    /// Creates a pool of `size` workers sharing one job queue.
    ///
    /// A size of zero is rejected with `InvalidSize` before anything is
    /// built; any positive size succeeds, with every worker listening.
    pub fn build(size: usize) -> (r: Result<ThreadPool, PoolCreationError>)
        ensures
            size == 0 ==> (r matches Err(e) && e == PoolCreationError::InvalidSize),
            size >= 1 ==> (r matches Ok(p) && p.is_fresh(size)),
    {
        if size == 0 {
            return Err(PoolCreationError::InvalidSize);
        }
        let queue = JobQueue::new();
        let mut workers: Vec<Worker> = Vec::new();
        let mut id: usize = 0;
        while id < size
            invariant
                id <= size,
                workers@.len() == id,
                forall|i: int|
                    0 <= i < id ==> (#[trigger] workers@[i]).id == i && workers@[i].state
                        == WorkerState::Listening,
            decreases size - id,
        {
            workers.push(Worker::new(id));
            id = id + 1;
        }
        Ok(ThreadPool {
            workers,
            sender: Some(ProducerHandle {}),
            queue,
            submitted: 0,
            started: Vec::new(),
            completed: Vec::new(),
            failed: Vec::new(),
        })
    }

    /// Submits a job and returns its id, the next in submission order.
    ///
    /// Submission never blocks and never fails on a live pool: the queue
    /// is unbounded, and the pool holds the producer side for as long as
    /// it lives. The job goes to the back of the queue; nothing else
    /// changes.
    pub fn execute(&mut self) -> (id: usize)
        requires
            old(self).wf(),
            old(self).is_live(),
            old(self).submitted < usize::MAX,
        ensures
            final(self).wf(),
            final(self).is_live(),
            id == old(self).submitted,
            final(self).submitted == old(self).submitted + 1,
            final(self).queue.pending() == old(self).queue.pending().push(id),
            final(self).workers@ == old(self).workers@,
            final(self).started@ == old(self).started@,
            final(self).completed@ == old(self).completed@,
            final(self).failed@ == old(self).failed@,
    {
        let id = self.submitted;
        self.submitted = self.submitted + 1;
        self.queue.send(id);
        id
    }

    /// How `post` differs from `pre` when worker `w` claims the oldest
    /// pending job: the job moves from the front of the queue into `w`'s
    /// hands and onto the record of started jobs, and nothing else
    /// changes — in particular no other worker is touched, which is what
    /// lets a sibling claim the next job while this one executes.
    pub open spec fn claimed(pre: ThreadPool, post: ThreadPool, w: int) -> bool {
        &&& 0 <= w < pre.workers@.len()
        &&& pre.queue.pending().len() > 0
        &&& post.workers@ == pre.workers@.update(
            w,
            (Worker {
                id: pre.workers@[w].id,
                state: WorkerState::Executing { job: pre.queue.pending()[0] },
            }),
        )
        &&& post.started@ == pre.started@.push(pre.queue.pending()[0])
        &&& post.queue.pending() == pre.queue.pending().drop_first()
        &&& post.queue.is_open() == pre.queue.is_open()
        &&& post.sender is Some == pre.sender is Some
        &&& post.submitted == pre.submitted
        &&& post.completed@ == pre.completed@
        &&& post.failed@ == pre.failed@
    }

    /// Whether `post` and `pre` agree on everything the pool's contracts
    /// observe: workers, queue contents and openness, liveness, and the
    /// records of submitted, started, completed and failed jobs.
    pub open spec fn obs_eq(pre: ThreadPool, post: ThreadPool) -> bool {
        &&& post.workers@ == pre.workers@
        &&& post.started@ == pre.started@
        &&& post.queue.pending() == pre.queue.pending()
        &&& post.queue.is_open() == pre.queue.is_open()
        &&& post.sender is Some == pre.sender is Some
        &&& post.submitted == pre.submitted
        &&& post.completed@ == pre.completed@
        &&& post.failed@ == pre.failed@
    }

    /// How `post` differs from `pre` when worker `w` observes the queue
    /// closed and drained: `w` terminates and nothing else changes.
    pub open spec fn retired(pre: ThreadPool, post: ThreadPool, w: int) -> bool {
        &&& 0 <= w < pre.workers@.len()
        &&& post.workers@ == pre.workers@.update(
            w,
            (Worker { id: pre.workers@[w].id, state: WorkerState::Terminated }),
        )
        &&& post.started@ == pre.started@
        &&& post.queue.pending() == pre.queue.pending()
        &&& post.queue.is_open() == pre.queue.is_open()
        &&& post.sender is Some == pre.sender is Some
        &&& post.submitted == pre.submitted
        &&& post.completed@ == pre.completed@
        &&& post.failed@ == pre.failed@
    }

    /// One turn of worker `w`'s loop at the queue: acquire the shared
    /// receive handle, attempt to receive, release it — the handle is
    /// never held while a job executes.
    ///
    /// If a job is pending, `w` claims the oldest one and turns to
    /// executing it. If the queue is empty but open, nothing changes —
    /// the real thread blocks and tries again. If the queue is empty and
    /// closed, `w` terminates: it will never see another job.
    pub fn worker_poll(&mut self, w: usize) -> (r: RecvOutcome)
        requires
            old(self).wf(),
            w < old(self).workers@.len(),
            old(self).workers@[w as int].state is Listening,
        ensures
            final(self).wf(),
            final(self).is_live() == old(self).is_live(),
            old(self).queue.pending().len() > 0 ==> (r matches RecvOutcome::Job { id } && id
                == old(self).queue.pending()[0] && Self::claimed(
                *old(self),
                *final(self),
                w as int,
            )),
            old(self).queue.pending().len() == 0 && old(self).is_live() ==> r
                == RecvOutcome::Empty && Self::obs_eq(*old(self), *final(self)),
            old(self).queue.pending().len() == 0 && !old(self).is_live() ==> r
                == RecvOutcome::Disconnected && Self::retired(*old(self), *final(self), w as int),
    {
        let outcome = self.queue.recv();
        match outcome {
            RecvOutcome::Job { id } => {
                self.workers.set(w, Worker { id: w, state: WorkerState::Executing { job: id } });
                self.started.push(id);
            },
            RecvOutcome::Empty => {},
            RecvOutcome::Disconnected => {
                self.workers.set(w, Worker { id: w, state: WorkerState::Terminated });
            },
        }
        outcome
    }

    /// Worker `w` ran its claimed job to completion and turns back to
    /// the queue for the next one. The job goes onto the completion
    /// record — exactly once: the invariant rules out a second entry.
    pub fn finish(&mut self, w: usize)
        requires
            old(self).wf(),
            w < old(self).workers@.len(),
            old(self).workers@[w as int].is_executing(),
        ensures
            final(self).wf(),
            final(self).is_live() == old(self).is_live(),
            final(self).workers@ == old(self).workers@.update(
                w as int,
                (Worker { id: w, state: WorkerState::Listening }),
            ),
            final(self).completed@ == old(self).completed@.push(
                old(self).workers@[w as int].current_job(),
            ),
            final(self).started@ == old(self).started@,
            final(self).queue.pending() == old(self).queue.pending(),
            final(self).submitted == old(self).submitted,
            final(self).failed@ == old(self).failed@,
    {
        let job = match self.workers[w].state {
            WorkerState::Executing { job } => job,
            _ => 0,  // ruled out by the precondition
        };
        self.workers.set(w, Worker { id: w, state: WorkerState::Listening });
        self.completed.push(job);
    }

    /// The job worker `w` was running panicked. The worker's thread dies
    /// with it and is not replaced: the pool's effective capacity shrinks
    /// by one for the rest of its life. The job goes onto the failure
    /// record and never onto the completion record.
    pub fn job_panicked(&mut self, w: usize)
        requires
            old(self).wf(),
            w < old(self).workers@.len(),
            old(self).workers@[w as int].is_executing(),
        ensures
            final(self).wf(),
            final(self).is_live() == old(self).is_live(),
            final(self).workers@ == old(self).workers@.update(
                w as int,
                (Worker { id: w, state: WorkerState::Terminated }),
            ),
            final(self).workers@.len() == old(self).workers@.len(),
            final(self).failed@ == old(self).failed@.push(
                old(self).workers@[w as int].current_job(),
            ),
            final(self).completed@ == old(self).completed@,
            final(self).started@ == old(self).started@,
            final(self).queue.pending() == old(self).queue.pending(),
            final(self).submitted == old(self).submitted,
    {
        let job = match self.workers[w].state {
            WorkerState::Executing { job } => job,
            _ => 0,  // ruled out by the precondition
        };
        self.workers.set(w, Worker { id: w, state: WorkerState::Terminated });
        self.failed.push(job);
    }

    /// The lowest-numbered worker whose thread is still running, if any.
    fn first_live(&self) -> (r: Option<usize>)
        ensures
            r matches Some(w) ==> w < self.workers@.len() && self.workers@[w as int].is_live(),
            r is None ==> forall|i: int|
                0 <= i < self.workers@.len() ==> !(#[trigger] self.workers@[i]).is_live(),
    {
        let n = self.workers.len();
        let mut w: usize = 0;
        while w < n
            invariant
                w <= n,
                n == self.workers@.len(),
                forall|i: int| 0 <= i < w ==> !(#[trigger] self.workers@[i]).is_live(),
            decreases n - w,
        {
            let live = match self.workers[w].state {
                WorkerState::Terminated => false,
                _ => true,
            };
            if live {
                return Some(w);
            }
            w = w + 1;
        }
        None
    }

    /// Tears the pool down: relinquishes the producer handle — exactly
    /// once; on a pool already torn down this is a no-op — which closes
    /// the queue, then waits for every worker in construction order.
    ///
    /// Waiting means: every job already in a worker's hands runs to
    /// completion, and as long as any worker is still running its loop,
    /// the remaining queue drains through it, every drained job running
    /// to completion as well; each worker then observes the closed,
    /// empty queue and terminates. Only if no worker is left alive do
    /// the pending jobs go unexecuted. No job is ever abandoned
    /// mid-execution, and nothing fails during teardown.
    pub fn shutdown(&mut self)
        requires
            old(self).wf(),
        ensures
            final(self).wf(),
            !final(self).is_live(),
            final(self).size() == old(self).size(),
            final(self).submitted == old(self).submitted,
            forall|i: int|
                0 <= i < final(self).workers@.len() ==> (#[trigger] final(self).workers@[i]).state is Terminated,
            forall|i: int|
                0 <= i < old(self).workers@.len() && old(self).workers@[i].state is Terminated
                    ==> final(self).workers@[i] == old(self).workers@[i],
            old(self).completed@.is_prefix_of(final(self).completed@),
            final(self).failed@ == old(self).failed@,
            forall|i: int|
                0 <= i < old(self).workers@.len() && (#[trigger] old(self).workers@[i]).is_executing() ==> final(self).completed@.contains(
                    old(self).workers@[i].current_job(),
                ),
            old(self).has_live_worker() ==> final(self).queue.pending().len() == 0,
            old(self).has_live_worker() ==> forall|k: int|
                0 <= k < old(self).queue.pending().len() ==> final(self).completed@.contains(
                    #[trigger] old(self).queue.pending()[k],
                ),
            !old(self).has_live_worker() ==> final(self).queue.pending() == old(self).queue.pending() && final(self).completed@ == old(self).completed@,
    {
        // Relinquish the producer handle; this closes the queue. The
        // handle is taken at most once: a second teardown finds it gone.
        if self.sender.is_some() {
            self.sender = None;
            self.queue.close();
        }
        let n = self.workers.len();
        // Every job already claimed runs to completion.
        let mut w: usize = 0;
        while w < n
            invariant
                w <= n,
                n == self.workers@.len(),
                self.wf(),
                !self.is_live(),
                self.submitted == old(self).submitted,
                self.queue.pending() == old(self).queue.pending(),
                self.failed@ == old(self).failed@,
                old(self).completed@.is_prefix_of(self.completed@),
                forall|i: int| 0 <= i < w ==> !(#[trigger] self.workers@[i]).is_executing(),
                forall|i: int|
                    w <= i < n ==> #[trigger] self.workers@[i] == old(self).workers@[i],
                forall|i: int|
                    0 <= i < w ==> ((#[trigger] self.workers@[i]).state is Terminated <==> old(self).workers@[i].state is Terminated),
                forall|i: int|
                    0 <= i < w && old(self).workers@[i].state is Terminated ==> #[trigger] self
                        .workers@[i] == old(self).workers@[i],
                forall|i: int|
                    0 <= i < w && (#[trigger] old(self).workers@[i]).is_executing() ==> self
                        .completed@.contains(old(self).workers@[i].current_job()),
                (forall|i: int|
                    0 <= i < n ==> !(#[trigger] old(self).workers@[i]).is_executing()) ==> self
                    .completed@ == old(self).completed@,
            decreases n - w,
        {
            let ghost before = *self;
            let executing = match self.workers[w].state {
                WorkerState::Executing { .. } => true,
                _ => false,
            };
            if executing {
                self.finish(w);
                proof {
                    let job = before.workers@[w as int].current_job();
                    assert(self.completed@ == before.completed@.push(job));
                    assert(self.completed@[before.completed@.len() as int] == job);
                    assert forall|i: int|
                        0 <= i < w + 1 && (#[trigger] old(self).workers@[i]).is_executing()
                            implies self.completed@.contains(
                        old(self).workers@[i].current_job(),
                    ) by {
                        if i < w {
                            let prev = before.completed@;
                            assert(prev.contains(old(self).workers@[i].current_job()));
                            let x = choose|k: int|
                                0 <= k < prev.len() && prev[k] == old(self).workers@[i].current_job();
                            assert(self.completed@[x] == old(self).workers@[i].current_job());
                        } else {
                            assert(before.workers@[i] == old(self).workers@[i]);
                            assert(self.completed@.contains(job));
                        }
                    }
                }
            }
            w = w + 1;
        }
        // As long as any worker still runs its loop, the queue drains
        // through it; each drained job runs to completion in turn.
        let ghost mid = *self;
        let ghost pend0 = self.queue.pending();
        let found = self.first_live();
        proof {
            if old(self).has_live_worker() {
                let iw = choose|i: int|
                    0 <= i < old(self).workers@.len()
                        && (#[trigger] old(self).workers@[i]).is_live();
                assert(!(mid.workers@[iw].state is Terminated));
                assert(mid.workers@[iw].is_live());
                assert(found is Some);
            }
        }
        if let Some(lw) = found {
            while self.queue.jobs.len() > 0
                invariant
                    self.wf(),
                    !self.is_live(),
                    lw < self.workers@.len(),
                    self.workers@[lw as int].state is Listening,
                    self.submitted == mid.submitted,
                    self.failed@ == mid.failed@,
                    self.workers@.len() == mid.workers@.len(),
                    forall|i: int|
                        0 <= i < self.workers@.len() && i != lw ==> #[trigger] self.workers@[i]
                            == mid.workers@[i],
                    mid.completed@.is_prefix_of(self.completed@),
                    self.queue.pending().len() <= pend0.len(),
                    self.queue.pending() == pend0.skip(pend0.len() - self.queue.pending().len()),
                    forall|k: int|
                        0 <= k < pend0.len() - self.queue.pending().len() ==> self
                            .completed@.contains(#[trigger] pend0[k]),
                decreases self.queue.pending().len(),
            {
                let ghost before = *self;
                self.worker_poll(lw);
                self.finish(lw);
                proof {
                    let claimed_job = before.queue.pending()[0];
                    assert(self.completed@.last() == claimed_job);
                    assert(self.completed@.contains(claimed_job));
                    assert forall|k: int|
                        0 <= k < pend0.len() - self.queue.pending().len() implies self
                        .completed@.contains(#[trigger] pend0[k]) by {
                        if k < pend0.len() - before.queue.pending().len() {
                            let prev = before.completed@;
                            assert(prev.contains(pend0[k]));
                            let x = choose|j: int| 0 <= j < prev.len() && prev[j] == pend0[k];
                            assert(self.completed@[x] == pend0[k]);
                        } else {
                            assert(pend0[k] == claimed_job);
                        }
                    }
                }
            }
        }
        // Every worker still listening now observes the closed, drained
        // queue and terminates; the rest have already terminated.
        let ghost drained = *self;
        let mut w: usize = 0;
        while w < n
            invariant
                w <= n,
                n == self.workers@.len(),
                self.wf(),
                !self.is_live(),
                self.submitted == drained.submitted,
                self.queue.pending() == drained.queue.pending(),
                self.completed@ == drained.completed@,
                self.failed@ == drained.failed@,
                self.queue.pending().len() == 0 || (forall|i: int|
                    0 <= i < n ==> !((#[trigger] self.workers@[i]).state is Listening)),
                forall|i: int| 0 <= i < n ==> !(#[trigger] self.workers@[i]).is_executing(),
                forall|i: int| 0 <= i < w ==> (#[trigger] self.workers@[i]).state is Terminated,
                forall|i: int|
                    w <= i < n ==> #[trigger] self.workers@[i] == drained.workers@[i],
                forall|i: int|
                    0 <= i < n && drained.workers@[i].state is Terminated ==> #[trigger] self
                        .workers@[i] == drained.workers@[i],
            decreases n - w,
        {
            let listening = match self.workers[w].state {
                WorkerState::Listening => true,
                _ => false,
            };
            if listening {
                self.worker_poll(w);
            }
            w = w + 1;
        }
        proof {
            if old(self).has_live_worker() {
                let iw = choose|i: int|
                    0 <= i < old(self).workers@.len()
                        && (#[trigger] old(self).workers@[i]).is_live();
                assert(mid.workers@[iw].is_live());
                assert(found is Some);
                assert(drained.queue.pending().len() == 0);
                assert(pend0 == old(self).queue.pending());
                assert forall|k: int|
                    0 <= k < old(self).queue.pending().len() implies self.completed@.contains(
                    #[trigger] old(self).queue.pending()[k],
                ) by {
                    assert(drained.completed@.contains(pend0[k]));
                }
            } else {
                assert forall|i: int|
                    0 <= i < old(self).workers@.len() implies !(#[trigger] old(self).workers@[i]).is_executing() by {
                    assert(!old(self).workers@[i].is_live());
                }
                assert(mid.completed@ == old(self).completed@);
                match found {
                    Some(fw) => {
                        assert(mid.workers@[fw as int].is_live());
                        assert(old(self).workers@[fw as int].is_live());
                        assert(false);
                    },
                    None => {},
                }
                assert(drained.completed@ == mid.completed@);
                assert(drained.queue.pending() == mid.queue.pending());
            }
        }
    }
}

/// Every submitted job is handled exactly once. In any well-formed pool,
/// the jobs claimed by workers so far, followed by the jobs still
/// pending in the queue, are exactly the submitted jobs in submission
/// order: no job is lost, none is claimed twice, none appears from
/// nowhere. The completion record repeats no job and holds only
/// submitted jobs; once the queue is drained, every submitted job has
/// been claimed by exactly one worker.
pub proof fn lemma_exactly_once(p: ThreadPool)
    requires
        p.wf(),
    ensures
        p.started@ + p.queue.pending() == p.submitted_seq(),
        p.started@.no_duplicates(),
        p.completed@.no_duplicates(),
        forall|j: usize| #[trigger]
            p.completed@.contains(j) ==> p.submitted_seq().contains(j),
        p.queue.pending().len() == 0 ==> p.started@ == p.submitted_seq(),
{
    assert(p.started@ + p.queue.pending() =~= p.submitted_seq());
    assert forall|j: usize| #[trigger] p.completed@.contains(j) implies p.submitted_seq().contains(
        j,
    ) by {
        let x = choose|x: int| 0 <= x < p.completed@.len() && p.completed@[x] == j;
        assert(p.completed@[x] < p.started@.len());
        assert(p.submitted_seq()[j as int] == j);
    }
    if p.queue.pending().len() == 0 {
        assert(p.started@ =~= p.submitted_seq());
    }
}

/// Claims by two different workers compose: with at least two jobs
/// pending and workers `a` and `b` both listening, after `a` claims a
/// job and `b` claims the next, both workers hold jobs, and distinct
/// ones — the two executions then proceed concurrently, since no claim
/// waits for another worker's job to finish. This takes a pool of at
/// least two workers.
pub proof fn lemma_concurrent_claims(
    p0: ThreadPool,
    p1: ThreadPool,
    p2: ThreadPool,
    a: int,
    b: int,
)
    requires
        p0.wf(),
        0 <= a < p0.workers@.len(),
        0 <= b < p0.workers@.len(),
        a != b,
        p0.workers@[a].state is Listening,
        p0.workers@[b].state is Listening,
        p0.queue.pending().len() >= 2,
        ThreadPool::claimed(p0, p1, a),
        ThreadPool::claimed(p1, p2, b),
    ensures
        p2.workers@[a].is_executing(),
        p2.workers@[b].is_executing(),
        p2.workers@[a].current_job() == p0.queue.pending()[0],
        p2.workers@[b].current_job() == p0.queue.pending()[1],
        p2.workers@[a].current_job() != p2.workers@[b].current_job(),
{
    assert(p1.queue.pending()[0] == p0.queue.pending()[1]);
    assert(p2.workers@[a] == p1.workers@[a]);
}

} // verus!
