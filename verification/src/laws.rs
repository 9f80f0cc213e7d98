//! What holds of every worker pool, proved over the state machine of
//! [`crate::model`].

use crate::model::{
    shutdown_begun, steps_left_of, submissions, Dispatch, Event, Outcome, PoolView, WorkerView,
};
use crate::queue::PoolError;
use vstd::prelude::*;
use vstd::set_lib::{lemma_int_range, set_int_range};

verus! {

/// A new pool of at least one worker is well formed; it has exactly as many
/// workers as were asked for, and all of them are idle.
pub proof fn lemma_init<J>(size: nat)
    requires
        size >= 1,
    ensures
        PoolView::<J>::init(size).wf(),
        PoolView::<J>::init(size).workers.len() == size,
        forall|w: int| 0 <= w < size ==> PoolView::<J>::init(size).idle(w),
{
    let pool = PoolView::<J>::init(size);
    assert(pool.pending =~= pool.accepted.skip(0));
    assert(pool.workers[0] is Idle);
}

/// A submission keeps a pool well formed.
pub proof fn lemma_submit_keeps_wf<J>(pool: PoolView<J>, job: J)
    requires
        pool.wf(),
    ensures
        pool.submit(job).wf(),
{
    let next = pool.submit(job);
    if pool.lifecycle is Running {
        assert(next.pending =~= next.accepted.skip(next.claimed.len() as int));
    }
}

/// The start of the shutdown keeps a pool well formed.
pub proof fn lemma_shutdown_keeps_wf<J>(pool: PoolView<J>)
    requires
        pool.wf(),
    ensures
        pool.begin_shutdown().wf(),
{
}

/// A worker's request for its next job keeps a pool well formed.
pub proof fn lemma_ask_keeps_wf<J>(pool: PoolView<J>, w: int)
    requires
        pool.wf(),
    ensures
        pool.ask(w).wf(),
{
    let next = pool.ask(w);
    if pool.idle(w) && pool.pending.len() > 0 {
        assert(next.pending =~= next.accepted.skip(next.claimed.len() as int));
        assert(next.workers[w] is Busy);
    }
}

/// A worker's report of the end of its job keeps a pool well formed.
pub proof fn lemma_finish_keeps_wf<J>(pool: PoolView<J>, w: int, outcome: Outcome)
    requires
        pool.wf(),
    ensures
        pool.finish(w, outcome).wf(),
{
    let next = pool.finish(w, outcome);
    if pool.busy(w) {
        let ticket = pool.workers[w]->ticket;
        assert(next.executed.last() == ticket);
        assert forall|t: int| pool.executed.contains(t) implies next.executed.contains(t) by {
            let i = choose|i: int| 0 <= i < pool.executed.len() && pool.executed[i] == t;
            assert(next.executed[i] == t);
        }
        assert(!next.all_exited()) by {
            assert(next.workers[w] is Idle);
        }
    }
}

/// Every event keeps a pool well formed.
pub proof fn lemma_step_keeps_wf<J>(pool: PoolView<J>, event: Event<J>)
    requires
        pool.wf(),
    ensures
        pool.step(event).wf(),
{
    match event {
        Event::Submit(job) => lemma_submit_keeps_wf(pool, job),
        Event::Shutdown => lemma_shutdown_keeps_wf(pool),
        Event::Ask(w) => lemma_ask_keeps_wf(pool, w),
        Event::Finish(w, outcome) => lemma_finish_keeps_wf(pool, w, outcome),
    }
}

/// Whatever happens to a well-formed pool, it stays well formed.
pub proof fn lemma_run_keeps_wf<J>(pool: PoolView<J>, events: Seq<Event<J>>)
    requires
        pool.wf(),
    ensures
        pool.run(events).wf(),
    decreases events.len(),
{
    if events.len() > 0 {
        lemma_run_keeps_wf(pool, events.drop_last());
        lemma_step_keeps_wf(pool.run(events.drop_last()), events.last());
    }
}

/// The ledger of a pool follows from what happened to it: it has accepted
/// the jobs that were submitted before the shutdown was first asked for, in
/// that order, and no others; and it runs until the shutdown is asked for.
pub proof fn lemma_accepted_are_submissions<J>(size: nat, events: Seq<Event<J>>)
    ensures
        PoolView::<J>::init(size).run(events).accepted == submissions(events),
        PoolView::<J>::init(size).run(events).lifecycle is Running <==> !shutdown_begun(events),
    decreases events.len(),
{
    if events.len() > 0 {
        lemma_accepted_are_submissions::<J>(size, events.drop_last());
    }
}

/// Once the shutdown has begun, it has begun for good: whatever happens
/// next, the pool does not run again and accepts no further job.
pub proof fn lemma_closed_stays_closed<J>(pool: PoolView<J>, events: Seq<Event<J>>)
    requires
        !(pool.lifecycle is Running),
    ensures
        !(pool.run(events).lifecycle is Running),
        pool.run(events).accepted == pool.accepted,
    decreases events.len(),
{
    if events.len() > 0 {
        lemma_closed_stays_closed(pool, events.drop_last());
    }
}

/// A submission after the shutdown has begun is refused as
/// [`PoolError::PoolClosed`] and leaves no trace: the job is not queued, not
/// accepted, and so is never handed to a worker, whatever happens next.
pub proof fn lemma_late_submission_never_runs<J>(
    pool: PoolView<J>,
    job: J,
    events: Seq<Event<J>>,
)
    requires
        pool.wf(),
        !(pool.lifecycle is Running),
    ensures
        pool.submit_result() == Err::<(), PoolError>(PoolError::PoolClosed),
        pool.submit(job) == pool,
        pool.submit(job).run(events).accepted == pool.accepted,
        pool.submit(job).run(events).claimed.len() <= pool.accepted.len(),
{
    lemma_closed_stays_closed(pool, events);
    lemma_run_keeps_wf(pool, events);
}

/// Jobs are handed out in the order in which they were accepted: the job
/// that a worker is given is the accepted job with the next ticket, and that
/// ticket is recorded as claimed by this worker.
pub proof fn lemma_handed_out_in_order<J>(pool: PoolView<J>, w: int, job: J)
    requires
        pool.wf(),
        pool.answer(w) == Some(Dispatch::Run(job)),
    ensures
        pool.claimed.len() < pool.accepted.len(),
        job == pool.accepted[pool.claimed.len() as int],
        pool.ask(w).claimed == pool.claimed.push(w),
        pool.ask(w).workers[w] == (WorkerView::Busy { ticket: pool.claimed.len() as int }),
        pool.ask(w).accepted == pool.accepted,
{
}

/// No two workers run the same job: workers that hold the same ticket are
/// one worker. And a job that is being run has not been executed before.
pub proof fn lemma_one_worker_per_job<J>(pool: PoolView<J>, a: int, b: int)
    requires
        pool.wf(),
        pool.busy(a),
        pool.busy(b),
        pool.workers[a]->ticket == pool.workers[b]->ticket,
    ensures
        a == b,
        !pool.executed.contains(pool.workers[a]->ticket),
{
}

/// No job is executed twice, and only accepted jobs are executed: the
/// tickets in the record of executions are distinct, and each is the ticket
/// of an accepted job that a worker claimed.
pub proof fn lemma_executed_at_most_once<J>(pool: PoolView<J>, i: int, j: int)
    requires
        pool.wf(),
        0 <= i < pool.executed.len(),
        0 <= j < pool.executed.len(),
    ensures
        pool.executed[i] == pool.executed[j] ==> i == j,
        0 <= pool.executed[i] < pool.claimed.len() <= pool.accepted.len(),
{
}

/// A worker outlives the failure of a job: after the report of a failure
/// the worker is idle, as after a success, and the pool differs from the one
/// after a success only in its record of failures. What the worker is told
/// when it next asks is the same.
pub proof fn lemma_failure_is_contained<J>(pool: PoolView<J>, w: int)
    requires
        pool.wf(),
        pool.busy(w),
    ensures
        pool.finish(w, Outcome::Failed).idle(w),
        pool.finish(w, Outcome::Failed) == (PoolView {
            failed: pool.failed.insert(pool.workers[w]->ticket),
            ..pool.finish(w, Outcome::Completed)
        }),
        pool.finish(w, Outcome::Failed).answer(w) == pool.finish(w, Outcome::Completed).answer(w),
        pool.finish(w, Outcome::Failed).answer(w) is Some,
{
}

/// A worker is never left waiting on a pool that is shut down: from a
/// closed and drained queue an idle worker is told to stop, and it is told
/// to wait only while the pool runs.
pub proof fn lemma_no_wait_after_shutdown<J>(pool: PoolView<J>, w: int)
    requires
        pool.wf(),
        pool.idle(w),
    ensures
        pool.answer(w) == Some(Dispatch::<J>::Wait) <==> pool.lifecycle is Running
            && pool.pending.len() == 0,
        pool.answer(w) == Some(Dispatch::<J>::Exit) <==> !(pool.lifecycle is Running)
            && pool.pending.len() == 0,
        pool.answer(w) == Some(Dispatch::<J>::Exit) ==> pool.ask(w).workers[w] is Exited,
{
}

/// In a pool that has stopped nothing is left to do and nobody is left to
/// do it: every worker has exited, the queue is empty, and every accepted
/// job has been executed, each exactly once.
pub proof fn lemma_stopped_means_done<J>(pool: PoolView<J>)
    requires
        pool.wf(),
        pool.lifecycle is Stopped,
    ensures
        pool.all_exited(),
        pool.pending.len() == 0,
        pool.claimed.len() == pool.accepted.len(),
        pool.executed.no_duplicates(),
        pool.executed.len() == pool.accepted.len(),
        forall|t: int| 0 <= t < pool.accepted.len() <==> pool.executed.contains(t),
{
    let n = pool.accepted.len() as int;
    assert(pool.workers[0] is Exited);
    assert forall|t: int| 0 <= t < n implies pool.executed.contains(t) by {
        assert(pool.workers[pool.claimed[t]] is Exited);
    }
    assert(pool.executed.to_set() =~= set_int_range(0, n));
    pool.executed.unique_seq_to_set();
    lemma_int_range(0, n);
}

/// A pool that has stopped stays as it is, whatever happens.
pub proof fn lemma_stopped_is_final<J>(pool: PoolView<J>, events: Seq<Event<J>>)
    requires
        pool.wf(),
        pool.lifecycle is Stopped,
    ensures
        pool.run(events) == pool,
    decreases events.len(),
{
    if events.len() > 0 {
        lemma_stopped_is_final(pool, events.drop_last());
    }
}

/// From construction to the end of the shutdown: take a new pool of at
/// least one worker and let anything happen to it. If the pool has stopped,
/// then every job that was submitted before the shutdown began has been
/// executed exactly once, and every worker has exited.
pub proof fn theorem_shutdown_runs_every_job_once<J>(size: nat, events: Seq<Event<J>>)
    requires
        size >= 1,
    ensures
        ({
            let pool = PoolView::<J>::init(size).run(events);
            pool.lifecycle is Stopped ==> {
                &&& pool.accepted == submissions(events)
                &&& pool.executed.len() == submissions(events).len()
                &&& pool.executed.no_duplicates()
                &&& forall|t: int| 0 <= t < submissions(events).len() <==> pool.executed.contains(t)
                &&& pool.workers.len() == size
                &&& pool.all_exited()
            }
        }),
{
    let pool = PoolView::<J>::init(size).run(events);
    lemma_init::<J>(size);
    lemma_run_keeps_wf(PoolView::<J>::init(size), events);
    lemma_accepted_are_submissions::<J>(size, events);
    lemma_size_is_fixed(PoolView::<J>::init(size), events);
    if pool.lifecycle is Stopped {
        lemma_stopped_means_done(pool);
    }
}

/// The number of workers never changes.
pub proof fn lemma_size_is_fixed<J>(pool: PoolView<J>, events: Seq<Event<J>>)
    ensures
        pool.run(events).workers.len() == pool.workers.len(),
    decreases events.len(),
{
    if events.len() > 0 {
        lemma_size_is_fixed(pool, events.drop_last());
    }
}

/// A change of one worker changes the steps that are left by the difference
/// between what it was and what it is.
pub proof fn lemma_steps_left_of_update(workers: Seq<WorkerView>, w: int, now: WorkerView)
    requires
        0 <= w < workers.len(),
    ensures
        steps_left_of(workers.update(w, now)) + workers[w].steps_left() == steps_left_of(workers)
            + now.steps_left(),
    decreases workers.len(),
{
    let updated = workers.update(w, now);
    if w == workers.len() - 1 {
        assert(updated.drop_last() =~= workers.drop_last());
    } else {
        assert(updated.drop_last() =~= workers.drop_last().update(w, now));
        lemma_steps_left_of_update(workers.drop_last(), w, now);
    }
}

/// Workers have no step left exactly when all of them have exited.
pub proof fn lemma_no_steps_left(workers: Seq<WorkerView>)
    ensures
        steps_left_of(workers) == 0 <==> forall|w: int|
            0 <= w < workers.len() ==> (#[trigger] workers[w]) is Exited,
    decreases workers.len(),
{
    if workers.len() > 0 {
        let before = workers.drop_last();
        lemma_no_steps_left(before);
        if steps_left_of(workers) == 0 {
            assert forall|w: int| 0 <= w < workers.len() implies (#[trigger] workers[w]) is Exited by {
                if w < before.len() {
                    assert(before[w] is Exited);
                }
            }
        }
    }
}

/// The shutdown ends, and it is known when. Once the shutdown has begun,
/// every step that a worker can take, the report of a busy worker or the
/// request of an idle one, brings the number of steps that are left down by
/// one. While the pool has not stopped, some worker can take a step. And the
/// pool has stopped exactly when no step is left. So the workers stop the
/// pool in exactly [`PoolView::steps_left`] steps, in whatever order they
/// take them. (While the pool runs, a request counts down too, as long as a
/// job waits.)
pub proof fn theorem_shutdown_ends<J>(pool: PoolView<J>, w: int, outcome: Outcome)
    requires
        pool.wf(),
    ensures
        pool.busy(w) ==> pool.finish(w, outcome).steps_left() == pool.steps_left() - 1,
        pool.idle(w) && (pool.pending.len() > 0 || !(pool.lifecycle is Running)) ==> pool.ask(
            w,
        ).steps_left() == pool.steps_left() - 1,
        pool.lifecycle is Stopped <==> pool.steps_left() == 0,
        !(pool.lifecycle is Stopped) ==> exists|v: int| pool.idle(v) || pool.busy(v),
{
    lemma_no_steps_left(pool.workers);
    if pool.busy(w) {
        lemma_steps_left_of_update(pool.workers, w, WorkerView::Idle);
    }
    if pool.idle(w) {
        if pool.pending.len() > 0 {
            lemma_steps_left_of_update(
                pool.workers,
                w,
                WorkerView::Busy { ticket: pool.claimed.len() as int },
            );
        } else if !(pool.lifecycle is Running) {
            lemma_steps_left_of_update(pool.workers, w, WorkerView::Exited);
        }
    }
    if !(pool.lifecycle is Stopped) {
        let v = choose|v: int| 0 <= v < pool.workers.len() && !((#[trigger] pool.workers[v]) is Exited);
        assert(pool.idle(v) || pool.busy(v));
    }
}

} // verus!
