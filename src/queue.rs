use std::collections::VecDeque;
use vstd::prelude::*;

verus! {

/// What a worker of the pool does next.
#[derive(Debug)]
pub enum Dispatch<T> {
    /// Run this job; it is now the worker's alone.
    Run(T),
    /// Nothing is queued yet: wait for a submission or for the queue to close.
    Wait,
    /// The queue is closed and drained: the worker ends.
    Stop,
}

/// The shared queue of a worker pool. Jobs leave it in the order they came
/// in, each one to exactly one worker; once closed it accepts nothing more,
/// and it tells workers to stop only when every accepted job has been handed
/// out.
pub struct JobQueue<T> {
    pending: VecDeque<T>,
    closed: bool,
    accepted: Ghost<Seq<T>>,
    handed_out: Ghost<Seq<T>>,
}

impl<T> JobQueue<T> {
    /// The jobs waiting for a worker, oldest first.
    pub closed spec fn pending(&self) -> Seq<T> {
        self.pending@
    }

    /// Whether the queue has been closed to submissions.
    pub closed spec fn is_closed_spec(&self) -> bool {
        self.closed
    }

    /// Every job the queue has accepted, in order of submission.
    pub closed spec fn accepted(&self) -> Seq<T> {
        self.accepted@
    }

    /// Every job the queue has handed to a worker, in order.
    pub closed spec fn handed_out(&self) -> Seq<T> {
        self.handed_out@
    }

    /// Each accepted job has either been handed out or is still waiting,
    /// and the ones handed out are the oldest.
    pub open spec fn wf(&self) -> bool {
        self.accepted() == self.handed_out() + self.pending()
    }

    /// An open, empty queue.
    pub fn new() -> (r: Self)
        ensures
            r.wf(),
            !r.is_closed_spec(),
            r.accepted() == Seq::<T>::empty(),
            r.handed_out() == Seq::<T>::empty(),
            r.pending() == Seq::<T>::empty(),
    {
        let r = JobQueue {
            pending: VecDeque::new(),
            closed: false,
            accepted: Ghost(Seq::empty()),
            handed_out: Ghost(Seq::empty()),
        };
        assert(r.accepted@ =~= r.handed_out@ + r.pending@);
        r
    }

    /// Queues a job. An open queue accepts it; a closed one hands it back
    /// and stays as it was.
    pub fn submit(&mut self, job: T) -> (r: Result<(), T>)
        requires
            old(self).wf(),
        ensures
            final(self).wf(),
            final(self).is_closed_spec() == old(self).is_closed_spec(),
            final(self).handed_out() == old(self).handed_out(),
            old(self).is_closed_spec() ==> r == Err::<(), T>(job),
            old(self).is_closed_spec() ==> final(self).accepted() == old(self).accepted(),
            old(self).is_closed_spec() ==> final(self).pending() == old(self).pending(),
            !old(self).is_closed_spec() ==> r is Ok,
            !old(self).is_closed_spec() ==> final(self).accepted() == old(self).accepted().push(job),
            !old(self).is_closed_spec() ==> final(self).pending() == old(self).pending().push(job),
    {
        if self.closed {
            Err(job)
        } else {
            proof {
                self.accepted@ = self.accepted@.push(job);
            }
            self.pending.push_back(job);
            assert(self.accepted@ =~= self.handed_out@ + self.pending@);
            Ok(())
        }
    }

    /// Takes the next step of a worker: the oldest waiting job, else a wait
    /// while the queue is open, else a stop.
    pub fn next(&mut self) -> (r: Dispatch<T>)
        requires
            old(self).wf(),
        ensures
            final(self).wf(),
            final(self).is_closed_spec() == old(self).is_closed_spec(),
            final(self).accepted() == old(self).accepted(),
            old(self).pending().len() > 0 ==> r == Dispatch::Run(old(self).pending()[0]),
            old(self).pending().len() > 0 ==> final(self).pending() == old(self).pending().drop_first(),
            old(self).pending().len() > 0 ==> final(self).handed_out() == old(self).handed_out().push(old(self).pending()[0]),
            old(self).pending().len() == 0 ==> final(self).pending() == old(self).pending(),
            old(self).pending().len() == 0 ==> final(self).handed_out() == old(self).handed_out(),
            old(self).pending().len() == 0 && old(self).is_closed_spec() ==> r is Stop,
            old(self).pending().len() == 0 && !old(self).is_closed_spec() ==> r is Wait,
            r is Stop ==> final(self).handed_out() == final(self).accepted(),
    {
        match self.pending.pop_front() {
            Some(job) => {
                proof {
                    self.handed_out@ = self.handed_out@.push(job);
                }
                assert(self.accepted@ =~= self.handed_out@ + self.pending@);
                Dispatch::Run(job)
            },
            None => {
                if self.closed {
                    assert(self.accepted@ =~= self.handed_out@);
                    Dispatch::Stop
                } else {
                    Dispatch::Wait
                }
            },
        }
    }

    /// Closes the queue: later submissions are refused, and the jobs already
    /// accepted stay queued.
    pub fn close(&mut self)
        requires
            old(self).wf(),
        ensures
            final(self).wf(),
            final(self).is_closed_spec(),
            final(self).accepted() == old(self).accepted(),
            final(self).handed_out() == old(self).handed_out(),
            final(self).pending() == old(self).pending(),
    {
        self.closed = true;
    }

    /// Whether the queue has been closed to submissions.
    pub fn is_closed(&self) -> (r: bool)
        ensures
            r == self.is_closed_spec(),
    {
        self.closed
    }

    /// The number of jobs waiting for a worker.
    pub fn len(&self) -> (r: usize)
        ensures
            r == self.pending().len(),
    {
        self.pending.len()
    }
}

/// Once workers are told to stop, every job the queue accepted has run
/// exactly once: the jobs handed out are the jobs accepted, one for one and
/// in the same order, with none left over and none repeated.
pub proof fn lemma_drained_queue_ran_each_job_once<T>(q: JobQueue<T>)
    requires
        q.wf(),
        q.is_closed_spec(),
        q.pending().len() == 0,
    ensures
        q.handed_out() == q.accepted(),
        q.handed_out().len() == q.accepted().len(),
{
    assert(q.handed_out() + q.pending() =~= q.handed_out());
}

/// Closing is a barrier: on a closed queue every accepted job has been
/// handed out exactly when nothing is left waiting, which is exactly when
/// `next` answers `Stop`; so workers end only after the last accepted job.
pub proof fn lemma_shutdown_barrier<T>(q: JobQueue<T>)
    requires
        q.wf(),
        q.is_closed_spec(),
    ensures
        q.pending().len() == 0 <==> q.handed_out() == q.accepted(),
{
    if q.pending().len() == 0 {
        assert(q.handed_out() + q.pending() =~= q.handed_out());
    }
    if q.handed_out() == q.accepted() {
        assert(q.accepted().len() == q.handed_out().len() + q.pending().len());
    }
}

} // verus!
