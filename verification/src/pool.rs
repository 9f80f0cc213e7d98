//! The worker pool: a fixed set of workers, the queue they share, and the
//! pool's lifecycle.
//!
//! A [`WorkerPool`] decides; it does not run anything. Whoever owns the
//! threads calls [`WorkerPool::submit`] for each job,
//! [`WorkerPool::next_job`] and [`WorkerPool::finish`] from each worker's
//! loop, and [`WorkerPool::begin_shutdown`] before it waits for the workers
//! to end. Every call is one step of the state machine of [`crate::model`],
//! so what [`crate::laws`] proves of that machine holds of the pool.

use crate::laws::{
    lemma_ask_keeps_wf, lemma_finish_keeps_wf, lemma_init, lemma_shutdown_keeps_wf,
    lemma_submit_keeps_wf,
};
use crate::model::{Dispatch, Lifecycle, Outcome, PoolView, WorkerState, WorkerView};
use crate::queue::{Dequeued, DispatchQueue, PoolError};
use vstd::prelude::*;

verus! {

/// The pool's record of what has happened, kept for proofs only.
struct Ledger<J> {
    /// Every job accepted so far, in order.
    accepted: Seq<J>,
    /// For each ticket handed out so far, the worker that claimed it.
    claimed: Seq<int>,
    /// For each worker, the ticket it holds while it is busy.
    holding: Seq<int>,
    /// The tickets of the jobs that have ended, in order.
    executed: Seq<int>,
    /// The tickets of the jobs that ended in failure.
    failed: Set<int>,
}

/// A pool of a fixed number of workers that share one queue of jobs of type
/// `J`.
pub struct WorkerPool<J> {
    queue: DispatchQueue<J>,
    workers: Vec<WorkerState>,
    lifecycle: Lifecycle,
    ledger: Ghost<Ledger<J>>,
}

/// What a worker in state `state` is doing, where `ticket` is the ticket it
/// holds while busy.
pub open spec fn worker_view(state: WorkerState, ticket: int) -> WorkerView {
    match state {
        WorkerState::Idle => WorkerView::Idle,
        WorkerState::Busy => WorkerView::Busy { ticket },
        WorkerState::Exited => WorkerView::Exited,
    }
}

impl<J> View for WorkerPool<J> {
    type V = PoolView<J>;

    closed spec fn view(&self) -> PoolView<J> {
        PoolView {
            lifecycle: self.lifecycle,
            pending: self.queue@.pending,
            workers: Seq::new(
                self.workers@.len(),
                |w: int| worker_view(self.workers@[w], self.ledger@.holding[w]),
            ),
            accepted: self.ledger@.accepted,
            claimed: self.ledger@.claimed,
            executed: self.ledger@.executed,
            failed: self.ledger@.failed,
        }
    }
}

impl<J> WorkerPool<J> {
    /// The parts of the pool agree with each other: the queue is closed
    /// exactly when the pool no longer runs, and the ledger knows every
    /// worker.
    pub closed spec fn consistent(&self) -> bool {
        &&& self.ledger@.holding.len() == self.workers@.len()
        &&& self.queue@.closed == !(self.lifecycle is Running)
    }

    /// The pool is well formed: its parts agree, and its value is a
    /// well-formed pool of the state machine.
    pub open spec fn wf(&self) -> bool {
        self.consistent() && self@.wf()
    }

    /// Makes a pool of `size` idle workers with an empty queue. A pool of no
    /// workers is refused as [`PoolError::InvalidSize`].
    pub fn new(size: usize) -> (made: Result<Self, PoolError>)
        ensures
            match made {
                Ok(pool) => size >= 1 && pool.wf() && pool@ == PoolView::<J>::init(size as nat),
                Err(error) => size == 0 && error == PoolError::InvalidSize,
            },
    {
        if size == 0 {
            return Err(PoolError::InvalidSize);
        }
        let mut workers: Vec<WorkerState> = Vec::new();
        let mut made: usize = 0;
        while made < size
            invariant
                made <= size,
                workers@.len() == made,
                forall|w: int| 0 <= w < made ==> workers@[w] == WorkerState::Idle,
            decreases size - made,
        {
            workers.push(WorkerState::Idle);
            made += 1;
        }
        let ghost ledger = Ledger::<J> {
            accepted: Seq::empty(),
            claimed: Seq::empty(),
            holding: Seq::new(size as nat, |w: int| 0int),
            executed: Seq::empty(),
            failed: Set::empty(),
        };
        let pool = WorkerPool {
            queue: DispatchQueue::new(),
            workers,
            lifecycle: Lifecycle::Running,
            ledger: Ghost(ledger),
        };
        proof {
            lemma_init::<J>(size as nat);
            assert(pool@.workers =~= PoolView::<J>::init(size as nat).workers);
        }
        Ok(pool)
    }

    /// Submits `job`. A running pool puts it at the end of the queue; after
    /// the shutdown has begun the job is refused as
    /// [`PoolError::PoolClosed`] and dropped, and the pool is unchanged. A
    /// submission never waits.
    pub fn submit(&mut self, job: J) -> (result: Result<(), PoolError>)
        requires
            old(self).wf(),
        ensures
            final(self).wf(),
            final(self)@ == old(self)@.submit(job),
            result == old(self)@.submit_result(),
    {
        let ghost submitted = job;
        let result = self.queue.enqueue(job);
        if result.is_ok() {
            self.ledger = Ghost(
                Ledger { accepted: self.ledger@.accepted.push(submitted), ..self.ledger@ },
            );
        }
        proof {
            lemma_submit_keeps_wf(old(self)@, submitted);
        }
        result
    }

    /// Begins the shutdown: a running pool stops taking jobs and closes its
    /// queue; what is queued stays queued. On any other pool the call
    /// changes nothing.
    pub fn begin_shutdown(&mut self)
        requires
            old(self).wf(),
        ensures
            final(self).wf(),
            final(self)@ == old(self)@.begin_shutdown(),
    {
        match self.lifecycle {
            Lifecycle::Running => {
                self.lifecycle = Lifecycle::ShuttingDown;
                self.queue.close();
            },
            _ => {},
        }
        proof {
            lemma_shutdown_keeps_wf(old(self)@);
        }
    }

    /// Answers worker `worker`, which asks for its next job.
    ///
    /// An idle worker of the pool is given the oldest waiting job and is
    /// busy from then on. Where nothing waits it is told to wait while the
    /// pool runs, and to stop once the shutdown has begun: then it has
    /// exited, and with the last worker to exit the pool has stopped. Anyone
    /// else gets no answer, and the pool is unchanged.
    pub fn next_job(&mut self, worker: usize) -> (answer: Option<Dispatch<J>>)
        requires
            old(self).wf(),
        ensures
            final(self).wf(),
            final(self)@ == old(self)@.ask(worker as int),
            answer == old(self)@.answer(worker as int),
    {
        proof {
            lemma_ask_keeps_wf(old(self)@, worker as int);
        }
        if worker >= self.workers.len() {
            return None;
        }
        match self.workers[worker] {
            WorkerState::Idle => {},
            _ => {
                return None;
            },
        }
        match self.queue.dequeue() {
            Dequeued::Job(job) => {
                self.workers.set(worker, WorkerState::Busy);
                let ghost ticket = self.ledger@.claimed.len() as int;
                self.ledger = Ghost(
                    Ledger {
                        claimed: self.ledger@.claimed.push(worker as int),
                        holding: self.ledger@.holding.update(worker as int, ticket),
                        ..self.ledger@
                    },
                );
                proof {
                    assert(self@.workers =~= old(self)@.ask(worker as int).workers);
                }
                Some(Dispatch::Run(job))
            },
            Dequeued::Empty => Some(Dispatch::Wait),
            Dequeued::Closed => {
                self.workers.set(worker, WorkerState::Exited);
                proof {
                    assert(self@.workers =~= old(self)@.workers.update(
                        worker as int,
                        WorkerView::Exited,
                    ));
                }
                if self.every_worker_exited() {
                    self.lifecycle = Lifecycle::Stopped;
                }
                Some(Dispatch::Exit)
            },
        }
    }

    /// Takes the report of worker `worker` that its job has ended, with
    /// `outcome`. A busy worker of the pool is idle again, whether the job
    /// completed or failed, and may ask for its next job; the call returns
    /// `true`. From anyone else the report changes nothing, and the call
    /// returns `false`.
    pub fn finish(&mut self, worker: usize, outcome: Outcome) -> (taken: bool)
        requires
            old(self).wf(),
        ensures
            final(self).wf(),
            final(self)@ == old(self)@.finish(worker as int, outcome),
            taken == old(self)@.busy(worker as int),
    {
        proof {
            lemma_finish_keeps_wf(old(self)@, worker as int, outcome);
        }
        if worker >= self.workers.len() {
            return false;
        }
        match self.workers[worker] {
            WorkerState::Busy => {},
            _ => {
                return false;
            },
        }
        self.workers.set(worker, WorkerState::Idle);
        let ghost ticket = self.ledger@.holding[worker as int];
        self.ledger = Ghost(
            Ledger {
                executed: self.ledger@.executed.push(ticket),
                failed: if outcome is Failed {
                    self.ledger@.failed.insert(ticket)
                } else {
                    self.ledger@.failed
                },
                ..self.ledger@
            },
        );
        proof {
            assert(self@.workers =~= old(self)@.finish(worker as int, outcome).workers);
        }
        true
    }

    /// Whether every worker has exited.
    fn every_worker_exited(&self) -> (all: bool)
        requires
            self.ledger@.holding.len() == self.workers@.len(),
        ensures
            all == self@.all_exited(),
    {
        let mut w: usize = 0;
        while w < self.workers.len()
            invariant
                w <= self.workers@.len(),
                self.ledger@.holding.len() == self.workers@.len(),
                forall|v: int| 0 <= v < w ==> self.workers@[v] is Exited,
            decreases self.workers@.len() - w,
        {
            match self.workers[w] {
                WorkerState::Exited => {},
                _ => {
                    assert(!(self@.workers[w as int] is Exited));
                    return false;
                },
            }
            w += 1;
        }
        true
    }

    /// The number of workers, fixed when the pool was made.
    pub fn size(&self) -> (n: usize)
        ensures
            n == self@.workers.len(),
    {
        self.workers.len()
    }

    /// Where the pool is in its life.
    pub fn lifecycle(&self) -> (lifecycle: Lifecycle)
        ensures
            lifecycle == self@.lifecycle,
    {
        self.lifecycle
    }

    /// Whether the pool takes jobs.
    pub fn is_running(&self) -> (running: bool)
        ensures
            running == (self@.lifecycle is Running),
    {
        match self.lifecycle {
            Lifecycle::Running => true,
            _ => false,
        }
    }

    /// Whether the pool has stopped: every worker has exited.
    pub fn is_stopped(&self) -> (stopped: bool)
        ensures
            stopped == (self@.lifecycle is Stopped),
    {
        match self.lifecycle {
            Lifecycle::Stopped => true,
            _ => false,
        }
    }

    /// The number of jobs that wait in the queue.
    pub fn queued(&self) -> (n: usize)
        ensures
            n == self@.pending.len(),
    {
        self.queue.len()
    }

    /// What worker `worker` is doing; `None` where the pool has no such
    /// worker.
    pub fn worker_state(&self, worker: usize) -> (state: Option<WorkerState>)
        ensures
            state == if worker < self@.workers.len() {
                Some(self@.workers[worker as int].state())
            } else {
                None
            },
    {
        if worker < self.workers.len() {
            Some(self.workers[worker])
        } else {
            None
        }
    }
}

} // verus!
