//! The dispatch queue: the ordered, unbounded channel between those who
//! submit jobs and the workers that run them.
//!
//! The queue never blocks. Where a worker would have to wait,
//! [`DispatchQueue::dequeue`] says so ([`Dequeued::Empty`]) and leaves the
//! waiting to the caller.

use std::collections::VecDeque;
use vstd::prelude::*;

verus! {

/// Why the pool refused a request.
#[derive(Clone, Copy, Debug, PartialEq, Eq, Structural)]
pub enum PoolError {
    /// A pool needs at least one worker.
    InvalidSize,
    /// The pool no longer takes jobs: its shutdown has begun.
    PoolClosed,
}

impl PoolError {
    /// A short description of the error.
    pub open spec fn text(self) -> Seq<char> {
        match self {
            PoolError::InvalidSize => "a pool needs at least one worker"@,
            PoolError::PoolClosed => "the pool is shut down"@,
        }
    }

    /// A short description of the error.
    pub fn message(self) -> (text: &'static str)
        ensures
            text@ == self.text(),
    {
        match self {
            PoolError::InvalidSize => "a pool needs at least one worker",
            PoolError::PoolClosed => "the pool is shut down",
        }
    }
}

/// What a worker gets when it asks the queue for work.
#[derive(Debug, PartialEq, Eq)]
pub enum Dequeued<J> {
    /// The job at the head of the queue, now the worker's own.
    Job(J),
    /// Nothing is queued, but more may come: the worker waits.
    Empty,
    /// Nothing is queued and nothing will come: the worker stops.
    Closed,
}

/// A first-in, first-out queue of jobs that can be closed.
pub struct DispatchQueue<J> {
    jobs: VecDeque<J>,
    closed: bool,
}

/// The mathematical value of a [`DispatchQueue`].
pub struct QueueView<J> {
    /// The jobs that wait, the oldest first.
    pub pending: Seq<J>,
    /// Whether the queue has been closed.
    pub closed: bool,
}

impl<J> QueueView<J> {
    /// The queue as it is made: empty and open.
    pub open spec fn fresh() -> Self {
        QueueView { pending: Seq::empty(), closed: false }
    }

    /// The queue after an attempt to enqueue `job`: an open queue takes it
    /// at its end, a closed one is unchanged.
    pub open spec fn enqueue(self, job: J) -> Self {
        if self.closed {
            self
        } else {
            QueueView { pending: self.pending.push(job), closed: self.closed }
        }
    }

    /// What a dequeue returns: the oldest job if there is one, else whether
    /// the queue is closed.
    pub open spec fn head(self) -> Dequeued<J> {
        if self.pending.len() > 0 {
            Dequeued::Job(self.pending[0])
        } else if self.closed {
            Dequeued::Closed
        } else {
            Dequeued::Empty
        }
    }

    /// The queue after a dequeue: without its oldest job, if it had one.
    pub open spec fn dequeue(self) -> Self {
        if self.pending.len() > 0 {
            QueueView { pending: self.pending.skip(1), closed: self.closed }
        } else {
            self
        }
    }

    /// The queue after it is closed: the jobs that wait stay.
    pub open spec fn close(self) -> Self {
        QueueView { pending: self.pending, closed: true }
    }
}

impl<J> View for DispatchQueue<J> {
    type V = QueueView<J>;

    closed spec fn view(&self) -> QueueView<J> {
        QueueView { pending: self.jobs@, closed: self.closed }
    }
}

impl<J> DispatchQueue<J> {
    /// An empty, open queue.
    pub fn new() -> (queue: Self)
        ensures
            queue@ == QueueView::<J>::fresh(),
    {
        DispatchQueue { jobs: VecDeque::new(), closed: false }
    }

    /// Appends `job` unless the queue is closed. A closed queue refuses with
    /// [`PoolError::PoolClosed`] and drops the job.
    pub fn enqueue(&mut self, job: J) -> (result: Result<(), PoolError>)
        ensures
            final(self)@ == old(self)@.enqueue(job),
            result == if old(self)@.closed {
                Err::<(), PoolError>(PoolError::PoolClosed)
            } else {
                Ok::<(), PoolError>(())
            },
    {
        if self.closed {
            Err(PoolError::PoolClosed)
        } else {
            self.jobs.push_back(job);
            Ok(())
        }
    }

    /// Hands out the oldest job. An empty queue answers
    /// [`Dequeued::Empty`] while it is open and [`Dequeued::Closed`] once it
    /// is closed, so a closed queue is drained before any worker is told to
    /// stop.
    pub fn dequeue(&mut self) -> (taken: Dequeued<J>)
        ensures
            taken == old(self)@.head(),
            final(self)@ == old(self)@.dequeue(),
    {
        match self.jobs.pop_front() {
            Some(job) => {
                assert(old(self)@.pending.skip(1) =~= self@.pending);
                Dequeued::Job(job)
            },
            None => if self.closed {
                Dequeued::Closed
            } else {
                Dequeued::Empty
            },
        }
    }

    /// Closes the queue. Closing is final; a second close changes nothing.
    pub fn close(&mut self)
        ensures
            final(self)@ == old(self)@.close(),
    {
        self.closed = true;
    }

    /// The number of jobs that wait.
    pub fn len(&self) -> (n: usize)
        ensures
            n == self@.pending.len(),
    {
        self.jobs.len()
    }

    /// Whether no job waits.
    pub fn is_empty(&self) -> (empty: bool)
        ensures
            empty == (self@.pending.len() == 0),
    {
        self.jobs.len() == 0
    }

    /// Whether the queue has been closed.
    pub fn is_closed(&self) -> (closed: bool)
        ensures
            closed == self@.closed,
    {
        self.closed
    }
}

} // verus!
