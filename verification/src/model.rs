//! The worker pool as a state machine over mathematical values.
//!
//! A pool is described by what it holds now (its lifecycle, the jobs that
//! wait, what each worker is doing) and by a ledger of what has happened
//! (every job it accepted, who claimed which, which ran to their end). A job
//! is known by its ticket: its position in the order of acceptance.
//!
//! Four events move a pool: a submission, the start of the shutdown, a
//! worker asking for its next job, and a worker reporting the end of a job.
//! [`PoolView::step`] says what each does, [`PoolView::wf`] what holds of
//! every pool that these events can lead to.

use crate::queue::PoolError;
use vstd::prelude::*;

verus! {

/// Where a pool is in its life. It only moves forward.
#[derive(Clone, Copy, Debug, PartialEq, Eq, Structural)]
pub enum Lifecycle {
    /// Jobs are accepted.
    Running,
    /// No job is accepted any more; workers drain the queue and stop.
    ShuttingDown,
    /// Every worker has stopped.
    Stopped,
}

/// How a job ended.
#[derive(Clone, Copy, Debug, PartialEq, Eq, Structural)]
pub enum Outcome {
    /// The job ran to its end.
    Completed,
    /// The job failed; the failure was contained.
    Failed,
}

/// What a worker is told when it asks for its next job.
#[derive(Debug, PartialEq, Eq)]
pub enum Dispatch<J> {
    /// Run this job, then report its end.
    Run(J),
    /// Nothing to do yet: wait, then ask again.
    Wait,
    /// Nothing to do and nothing will come: stop.
    Exit,
}

/// What a worker is doing, as the pool reports it.
#[derive(Clone, Copy, Debug, PartialEq, Eq, Structural)]
pub enum WorkerState {
    /// Between jobs.
    Idle,
    /// Running a job.
    Busy,
    /// Stopped for good.
    Exited,
}

/// What a worker is doing.
pub enum WorkerView {
    /// Between jobs.
    Idle,
    /// Running the job with this ticket.
    Busy { ticket: int },
    /// Stopped for good.
    Exited,
}

/// What can happen to a pool.
pub enum Event<J> {
    /// A job is submitted.
    Submit(J),
    /// The shutdown begins.
    Shutdown,
    /// The worker asks for its next job.
    Ask(int),
    /// The worker reports the end of the job it was running.
    Finish(int, Outcome),
}

/// The mathematical value of a pool.
pub struct PoolView<J> {
    /// Where the pool is in its life.
    pub lifecycle: Lifecycle,
    /// The jobs that wait, the oldest first.
    pub pending: Seq<J>,
    /// What each worker is doing.
    pub workers: Seq<WorkerView>,
    /// Every job accepted so far, in order; a job's index is its ticket.
    pub accepted: Seq<J>,
    /// For each ticket handed out so far, the worker that claimed it.
    pub claimed: Seq<int>,
    /// The tickets of the jobs that have ended, in the order in which they
    /// ended.
    pub executed: Seq<int>,
    /// The tickets of the jobs that ended in failure.
    pub failed: Set<int>,
}

impl WorkerView {
    /// What the pool reports of a worker: this value without the ticket.
    pub open spec fn state(self) -> WorkerState {
        match self {
            WorkerView::Idle => WorkerState::Idle,
            WorkerView::Busy { .. } => WorkerState::Busy,
            WorkerView::Exited => WorkerState::Exited,
        }
    }
}

impl WorkerView {
    /// The steps that this worker has to take before it has exited, if it is
    /// given no further job: a busy worker reports the end of its job and
    /// then, like an idle one, asks once more and is told to stop.
    pub open spec fn steps_left(self) -> nat {
        match self {
            WorkerView::Busy { .. } => 2,
            WorkerView::Idle => 1,
            WorkerView::Exited => 0,
        }
    }
}

/// The steps that `workers` have to take before all have exited, if they are
/// given no further job.
pub open spec fn steps_left_of(workers: Seq<WorkerView>) -> nat
    decreases workers.len(),
{
    if workers.len() == 0 {
        0
    } else {
        steps_left_of(workers.drop_last()) + workers.last().steps_left()
    }
}

impl<J> PoolView<J> {
    /// A new pool of `size` workers: running, nothing queued, every worker
    /// idle, nothing in the ledger.
    pub open spec fn init(size: nat) -> Self {
        PoolView {
            lifecycle: Lifecycle::Running,
            pending: Seq::empty(),
            workers: Seq::new(size, |w: int| WorkerView::Idle),
            accepted: Seq::empty(),
            claimed: Seq::empty(),
            executed: Seq::empty(),
            failed: Set::empty(),
        }
    }

    /// `w` is a worker of the pool and is between jobs.
    pub open spec fn idle(self, w: int) -> bool {
        0 <= w < self.workers.len() && self.workers[w] is Idle
    }

    /// `w` is a worker of the pool and is running a job.
    pub open spec fn busy(self, w: int) -> bool {
        0 <= w < self.workers.len() && self.workers[w] is Busy
    }

    /// Every worker has stopped.
    pub open spec fn all_exited(self) -> bool {
        forall|w: int| 0 <= w < self.workers.len() ==> (#[trigger] self.workers[w]) is Exited
    }

    /// The pool after `job` is submitted: a running pool accepts it, at the
    /// end of the queue; any other pool is unchanged.
    pub open spec fn submit(self, job: J) -> Self {
        if self.lifecycle is Running {
            PoolView {
                pending: self.pending.push(job),
                accepted: self.accepted.push(job),
                ..self
            }
        } else {
            self
        }
    }

    /// What a submission returns.
    pub open spec fn submit_result(self) -> Result<(), PoolError> {
        if self.lifecycle is Running {
            Ok(())
        } else {
            Err(PoolError::PoolClosed)
        }
    }

    /// The pool after the shutdown is asked for: a running pool begins it,
    /// any other pool is unchanged.
    pub open spec fn begin_shutdown(self) -> Self {
        if self.lifecycle is Running {
            PoolView { lifecycle: Lifecycle::ShuttingDown, ..self }
        } else {
            self
        }
    }

    /// What worker `w` is told when it asks for its next job: nothing, unless
    /// it is an idle worker of the pool; the oldest waiting job if there is
    /// one; to wait while the pool runs; to stop otherwise.
    pub open spec fn answer(self, w: int) -> Option<Dispatch<J>> {
        if !self.idle(w) {
            None
        } else if self.pending.len() > 0 {
            Some(Dispatch::Run(self.pending[0]))
        } else if self.lifecycle is Running {
            Some(Dispatch::Wait)
        } else {
            Some(Dispatch::Exit)
        }
    }

    /// The pool after worker `w` has asked for its next job. A job that is
    /// handed out leaves the queue, gets the next ticket and is recorded as
    /// claimed by `w`. A worker that is told to stop has exited; with the
    /// last of them the pool has stopped.
    pub open spec fn ask(self, w: int) -> Self {
        if !self.idle(w) {
            self
        } else if self.pending.len() > 0 {
            PoolView {
                pending: self.pending.skip(1),
                workers: self.workers.update(
                    w,
                    WorkerView::Busy { ticket: self.claimed.len() as int },
                ),
                claimed: self.claimed.push(w),
                ..self
            }
        } else if self.lifecycle is Running {
            self
        } else {
            let gone = PoolView { workers: self.workers.update(w, WorkerView::Exited), ..self };
            if gone.all_exited() {
                PoolView { lifecycle: Lifecycle::Stopped, ..gone }
            } else {
                gone
            }
        }
    }

    /// The pool after worker `w` has reported the end of its job: the worker
    /// is idle again, however the job ended, and the job's ticket is recorded
    /// as executed. A report from anyone but a busy worker changes nothing.
    pub open spec fn finish(self, w: int, outcome: Outcome) -> Self {
        if !self.busy(w) {
            self
        } else {
            let ticket = self.workers[w]->ticket;
            PoolView {
                workers: self.workers.update(w, WorkerView::Idle),
                executed: self.executed.push(ticket),
                failed: if outcome is Failed {
                    self.failed.insert(ticket)
                } else {
                    self.failed
                },
                ..self
            }
        }
    }

    /// The pool after one event.
    pub open spec fn step(self, event: Event<J>) -> Self {
        match event {
            Event::Submit(job) => self.submit(job),
            Event::Shutdown => self.begin_shutdown(),
            Event::Ask(w) => self.ask(w),
            Event::Finish(w, outcome) => self.finish(w, outcome),
        }
    }

    /// The pool after a sequence of events, the first first.
    pub open spec fn run(self, events: Seq<Event<J>>) -> Self
        decreases events.len(),
    {
        if events.len() == 0 {
            self
        } else {
            self.run(events.drop_last()).step(events.last())
        }
    }

    /// The worker steps that are left between this pool and its stop, if
    /// nothing more is submitted: two for each job that waits (it is asked
    /// for and reported), and those that the workers need to exit.
    pub open spec fn steps_left(self) -> nat {
        2 * self.pending.len() + steps_left_of(self.workers)
    }

    /// Ticket `t` has been handed to a worker.
    pub open spec fn handed_out(self, t: int) -> bool {
        0 <= t < self.claimed.len()
    }

    /// What holds of a pool at any time.
    ///
    /// The queue is what has been accepted and not yet claimed, in order:
    /// nothing is lost, nothing is queued twice, and jobs leave in the order
    /// in which they came. A ticket is claimed by one worker. A busy worker
    /// holds a ticket that it claimed and that has not been executed; a
    /// claimed ticket is either executed or held by its claimer. No ticket is
    /// executed twice. A worker exits only from a closed and drained queue,
    /// and the pool has stopped exactly when all of them have.
    pub open spec fn wf(self) -> bool {
        &&& self.workers.len() >= 1
        &&& self.claimed.len() <= self.accepted.len()
        &&& self.pending == self.accepted.skip(self.claimed.len() as int)
        &&& forall|t: int|
            self.handed_out(t) ==> 0 <= (#[trigger] self.claimed[t]) < self.workers.len()
        &&& self.executed.no_duplicates()
        &&& forall|i: int|
            0 <= i < self.executed.len() ==> self.handed_out(#[trigger] self.executed[i])
        &&& forall|w: int|
            0 <= w < self.workers.len() ==> ((#[trigger] self.workers[w]) matches WorkerView::Busy {
                ticket,
            } ==> self.handed_out(ticket) && self.claimed[ticket] == w && !self.executed.contains(
                ticket,
            ))
        &&& forall|t: int|
            self.handed_out(t) ==> self.executed.contains(t) || self.workers[#[trigger] self.claimed[t]]
                == (WorkerView::Busy { ticket: t })
        &&& forall|w: int|
            0 <= w < self.workers.len() && (#[trigger] self.workers[w]) is Exited
                ==> self.pending.len() == 0 && !(self.lifecycle is Running)
        &&& (self.lifecycle is Stopped <==> self.all_exited())
        &&& forall|t: int| self.failed.contains(t) ==> self.executed.contains(t)
    }
}

/// Whether the shutdown is asked for somewhere in `events`.
pub open spec fn shutdown_begun<J>(events: Seq<Event<J>>) -> bool
    decreases events.len(),
{
    if events.len() == 0 {
        false
    } else {
        events.last() is Shutdown || shutdown_begun(events.drop_last())
    }
}

/// The jobs that `events` submit before the shutdown is first asked for, in
/// order.
pub open spec fn submissions<J>(events: Seq<Event<J>>) -> Seq<J>
    decreases events.len(),
{
    if events.len() == 0 {
        Seq::empty()
    } else {
        let before = events.drop_last();
        match events.last() {
            Event::Submit(job) => if shutdown_begun(before) {
                submissions(before)
            } else {
                submissions(before).push(job)
            },
            _ => submissions(before),
        }
    }
}

} // verus!
