use vstd::prelude::*;

verus! {

/// The job queue: the channel that carries job identifiers from
/// submitters to workers, in first-in first-out order.
///
/// The queue is *open* while the producer side is still attached and
/// *closed* after the producer has been relinquished. Pending jobs may
/// still drain after closing, but a closed queue never reopens: every
/// method's contract keeps `is_open` false once it is false.
pub struct JobQueue {
    /// The identifiers queued and not yet claimed, oldest first.
    pub jobs: Vec<usize>,
    /// Whether the producer side is still attached.
    pub open: bool,
}

/// What one receive attempt on the queue observes.
#[derive(Debug, Clone, Copy, PartialEq, Eq, Structural)]
pub enum RecvOutcome {
    /// A job was claimed; the claimant must run it.
    Job { id: usize },
    /// The queue is open but holds nothing yet; a real consumer blocks
    /// and tries again.
    Empty,
    /// The queue is closed and fully drained; no job will ever arrive.
    Disconnected,
}

impl JobQueue {
    /// The identifiers queued and not yet claimed, oldest first.
    pub open spec fn pending(self) -> Seq<usize> {
        self.jobs@
    }

    /// Whether the producer side is still attached.
    pub open spec fn is_open(self) -> bool {
        self.open
    }

    /// Creates an open, empty queue.
    pub fn new() -> (q: JobQueue)
        ensures
            q.is_open(),
            q.pending() == Seq::<usize>::empty(),
    {
        JobQueue { jobs: Vec::new(), open: true }
    }

    /// Enqueues a job at the back. Only the producer can send, so the
    /// queue must still be open.
    pub fn send(&mut self, id: usize)
        requires
            old(self).is_open(),
        ensures
            final(self).is_open(),
            final(self).pending() == old(self).pending().push(id),
    {
        self.jobs.push(id);
    }

    /// Relinquishes the producer side: the queue is closed from here on,
    /// and pending jobs remain to drain. Closing an already closed queue
    /// changes nothing.
    pub fn close(&mut self)
        ensures
            !final(self).is_open(),
            final(self).pending() == old(self).pending(),
    {
        self.open = false;
    }

    /// One receive attempt: claims the oldest pending job if there is
    /// one; otherwise reports whether a consumer should keep waiting
    /// (open) or give up for good (closed).
    pub fn recv(&mut self) -> (r: RecvOutcome)
        ensures
            final(self).is_open() == old(self).is_open(),
            old(self).pending().len() > 0 ==> {
                &&& r == (RecvOutcome::Job { id: old(self).pending()[0] })
                &&& final(self).pending() == old(self).pending().drop_first()
            },
            old(self).pending().len() == 0 ==> final(self).pending() == old(self).pending(),
            old(self).pending().len() == 0 && old(self).is_open() ==> r == RecvOutcome::Empty,
            old(self).pending().len() == 0 && !old(self).is_open() ==> r == RecvOutcome::Disconnected,
    {
        if self.jobs.len() > 0 {
            let id = self.jobs.remove(0);
            proof {
                assert(old(self).pending().remove(0) =~= old(self).pending().drop_first());
            }
            RecvOutcome::Job { id }
        } else if self.open {
            RecvOutcome::Empty
        } else {
            RecvOutcome::Disconnected
        }
    }
}

} // verus!
