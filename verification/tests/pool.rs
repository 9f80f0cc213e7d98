use web_server::model::{Dispatch, Lifecycle, Outcome, WorkerState};
use web_server::pool::WorkerPool;
use web_server::queue::{Dequeued, DispatchQueue, PoolError};

fn pool_of(size: usize) -> WorkerPool<usize> {
    match WorkerPool::new(size) {
        Ok(pool) => pool,
        Err(error) => panic!("{error:?}"),
    }
}

/// Lets the workers take turns, each asking and at once finishing what it is
/// given, until all have exited; returns the jobs in the order in which they
/// were run.
fn drain(pool: &mut WorkerPool<usize>) -> Vec<usize> {
    let mut ran = Vec::new();
    let mut live = pool.size();
    while live > 0 {
        live = 0;
        for worker in 0..pool.size() {
            match pool.next_job(worker) {
                Some(Dispatch::Run(job)) => {
                    ran.push(job);
                    assert!(pool.finish(worker, Outcome::Completed));
                    live += 1;
                }
                Some(Dispatch::Wait) => panic!("worker {worker} is told to wait on a closed pool"),
                Some(Dispatch::Exit) => {}
                None => {}
            }
        }
    }
    ran
}

#[test]
fn pool_of_no_workers_is_refused() {
    assert_eq!(WorkerPool::<usize>::new(0).err(), Some(PoolError::InvalidSize));
}

#[test]
fn new_pool_has_the_workers_asked_for_all_idle() {
    for size in 1..=16 {
        let pool = pool_of(size);
        assert_eq!(pool.size(), size);
        assert_eq!(pool.lifecycle(), Lifecycle::Running);
        assert!(pool.is_running());
        assert!(!pool.is_stopped());
        assert_eq!(pool.queued(), 0);
        for worker in 0..size {
            assert_eq!(pool.worker_state(worker), Some(WorkerState::Idle));
        }
        assert_eq!(pool.worker_state(size), None);
    }
}

#[test]
fn every_job_runs_exactly_once_before_the_pool_stops() {
    for size in 1..=5 {
        for jobs in [0usize, 1, 2, 7, 100] {
            let mut pool = pool_of(size);
            for job in 0..jobs {
                assert_eq!(pool.submit(job), Ok(()));
            }
            assert_eq!(pool.queued(), jobs);
            pool.begin_shutdown();
            let mut ran = drain(&mut pool);
            assert!(pool.is_stopped());
            ran.sort();
            assert_eq!(ran, (0..jobs).collect::<Vec<usize>>());
        }
    }
}

#[test]
fn thousand_jobs_on_four_workers() {
    let mut pool = pool_of(4);
    let mut ran = Vec::new();
    for job in 0..1000 {
        assert_eq!(pool.submit(job), Ok(()));
        if job % 3 == 0 {
            let worker = job % 4;
            if let Some(Dispatch::Run(taken)) = pool.next_job(worker) {
                ran.push(taken);
                assert!(pool.finish(worker, Outcome::Completed));
            }
        }
    }
    pool.begin_shutdown();
    ran.extend(drain(&mut pool));
    assert_eq!(pool.lifecycle(), Lifecycle::Stopped);
    assert_eq!(ran.len(), 1000);
    ran.sort();
    ran.dedup();
    assert_eq!(ran, (0..1000).collect::<Vec<usize>>());
}

#[test]
fn jobs_are_handed_out_in_the_order_of_submission() {
    let mut pool = pool_of(3);
    for job in [30, 10, 20] {
        assert_eq!(pool.submit(job), Ok(()));
    }
    assert_eq!(pool.next_job(2), Some(Dispatch::Run(30)));
    assert_eq!(pool.next_job(0), Some(Dispatch::Run(10)));
    assert_eq!(pool.next_job(1), Some(Dispatch::Run(20)));
    assert_eq!(pool.queued(), 0);
}

#[test]
fn no_job_goes_to_two_workers() {
    let mut pool = pool_of(2);
    assert_eq!(pool.submit(7), Ok(()));
    assert_eq!(pool.next_job(0), Some(Dispatch::Run(7)));
    assert_eq!(pool.worker_state(0), Some(WorkerState::Busy));
    assert_eq!(pool.next_job(1), Some(Dispatch::Wait));
    assert_eq!(pool.worker_state(1), Some(WorkerState::Idle));
    assert_eq!(pool.queued(), 0);
}

#[test]
fn busy_worker_gets_no_second_job() {
    let mut pool = pool_of(1);
    assert_eq!(pool.submit(1), Ok(()));
    assert_eq!(pool.submit(2), Ok(()));
    assert_eq!(pool.next_job(0), Some(Dispatch::Run(1)));
    assert_eq!(pool.next_job(0), None);
    assert_eq!(pool.queued(), 1);
    assert!(pool.finish(0, Outcome::Completed));
    assert_eq!(pool.next_job(0), Some(Dispatch::Run(2)));
}

#[test]
fn strangers_are_not_answered() {
    let mut pool = pool_of(2);
    assert_eq!(pool.submit(1), Ok(()));
    assert_eq!(pool.next_job(2), None);
    assert_eq!(pool.next_job(usize::MAX), None);
    assert!(!pool.finish(2, Outcome::Completed));
    assert!(!pool.finish(0, Outcome::Completed));
    assert_eq!(pool.queued(), 1);
    assert_eq!(pool.worker_state(0), Some(WorkerState::Idle));
}

#[test]
fn idle_worker_waits_while_the_pool_runs() {
    let mut pool = pool_of(1);
    assert_eq!(pool.next_job(0), Some(Dispatch::Wait));
    assert_eq!(pool.next_job(0), Some(Dispatch::Wait));
    assert_eq!(pool.worker_state(0), Some(WorkerState::Idle));
    assert_eq!(pool.lifecycle(), Lifecycle::Running);
}

#[test]
fn submit_after_shutdown_is_refused_and_never_runs() {
    let mut pool = pool_of(2);
    assert_eq!(pool.submit(1), Ok(()));
    pool.begin_shutdown();
    assert_eq!(pool.submit(2), Err(PoolError::PoolClosed));
    assert_eq!(pool.queued(), 1);
    assert_eq!(drain(&mut pool), vec![1]);
    assert_eq!(pool.submit(3), Err(PoolError::PoolClosed));
    assert_eq!(pool.queued(), 0);
    assert!(pool.is_stopped());
}

#[test]
fn shutdown_drains_the_queue_before_workers_exit() {
    let mut pool = pool_of(2);
    for job in 0..3 {
        assert_eq!(pool.submit(job), Ok(()));
    }
    pool.begin_shutdown();
    assert_eq!(pool.lifecycle(), Lifecycle::ShuttingDown);
    assert_eq!(pool.next_job(0), Some(Dispatch::Run(0)));
    assert_eq!(pool.next_job(1), Some(Dispatch::Run(1)));
    assert!(pool.finish(1, Outcome::Completed));
    assert_eq!(pool.next_job(1), Some(Dispatch::Run(2)));
    assert!(pool.finish(0, Outcome::Completed));
    assert_eq!(pool.next_job(0), Some(Dispatch::Exit));
    assert_eq!(pool.worker_state(0), Some(WorkerState::Exited));
    assert_eq!(pool.lifecycle(), Lifecycle::ShuttingDown);
    assert!(pool.finish(1, Outcome::Completed));
    assert_eq!(pool.next_job(1), Some(Dispatch::Exit));
    assert_eq!(pool.lifecycle(), Lifecycle::Stopped);
}

#[test]
fn after_shutdown_no_worker_is_left() {
    let mut pool = pool_of(5);
    pool.begin_shutdown();
    assert_eq!(drain(&mut pool), Vec::<usize>::new());
    assert!(pool.is_stopped());
    for worker in 0..5 {
        assert_eq!(pool.worker_state(worker), Some(WorkerState::Exited));
        assert_eq!(pool.next_job(worker), None);
    }
}

#[test]
fn worker_is_told_to_stop_once() {
    let mut pool = pool_of(2);
    pool.begin_shutdown();
    assert_eq!(pool.next_job(0), Some(Dispatch::Exit));
    assert_eq!(pool.next_job(0), None);
    assert_eq!(pool.lifecycle(), Lifecycle::ShuttingDown);
    assert_eq!(pool.next_job(1), Some(Dispatch::Exit));
    assert_eq!(pool.lifecycle(), Lifecycle::Stopped);
}

#[test]
fn shutdown_twice_is_shutdown_once() {
    let mut pool = pool_of(1);
    assert_eq!(pool.submit(9), Ok(()));
    pool.begin_shutdown();
    pool.begin_shutdown();
    assert_eq!(pool.lifecycle(), Lifecycle::ShuttingDown);
    assert_eq!(pool.queued(), 1);
    assert_eq!(drain(&mut pool), vec![9]);
    pool.begin_shutdown();
    assert_eq!(pool.lifecycle(), Lifecycle::Stopped);
}

#[test]
fn job_in_progress_is_finished_before_its_worker_exits() {
    let mut pool = pool_of(1);
    assert_eq!(pool.submit(4), Ok(()));
    assert_eq!(pool.next_job(0), Some(Dispatch::Run(4)));
    pool.begin_shutdown();
    assert_eq!(pool.worker_state(0), Some(WorkerState::Busy));
    assert_eq!(pool.lifecycle(), Lifecycle::ShuttingDown);
    assert!(pool.finish(0, Outcome::Completed));
    assert_eq!(pool.next_job(0), Some(Dispatch::Exit));
    assert!(pool.is_stopped());
}

#[test]
fn failed_job_does_not_end_its_worker() {
    let mut pool = pool_of(1);
    assert_eq!(pool.submit(1), Ok(()));
    assert_eq!(pool.submit(2), Ok(()));
    assert_eq!(pool.next_job(0), Some(Dispatch::Run(1)));
    assert!(pool.finish(0, Outcome::Failed));
    assert_eq!(pool.worker_state(0), Some(WorkerState::Idle));
    assert_eq!(pool.next_job(0), Some(Dispatch::Run(2)));
    assert!(pool.finish(0, Outcome::Completed));
    pool.begin_shutdown();
    assert_eq!(pool.next_job(0), Some(Dispatch::Exit));
    assert!(pool.is_stopped());
}

#[test]
fn error_messages() {
    assert_eq!(PoolError::InvalidSize.message(), "a pool needs at least one worker");
    assert_eq!(PoolError::PoolClosed.message(), "the pool is shut down");
}

#[test]
fn queue_is_first_in_first_out() {
    let mut queue = DispatchQueue::new();
    assert!(queue.is_empty());
    assert!(!queue.is_closed());
    for job in [3, 1, 2] {
        assert_eq!(queue.enqueue(job), Ok(()));
    }
    assert_eq!(queue.len(), 3);
    assert_eq!(queue.dequeue(), Dequeued::Job(3));
    assert_eq!(queue.dequeue(), Dequeued::Job(1));
    assert_eq!(queue.enqueue(4), Ok(()));
    assert_eq!(queue.dequeue(), Dequeued::Job(2));
    assert_eq!(queue.dequeue(), Dequeued::Job(4));
    assert_eq!(queue.dequeue(), Dequeued::Empty);
    assert_eq!(queue.len(), 0);
}

#[test]
fn closed_queue_is_drained_then_says_closed() {
    let mut queue = DispatchQueue::new();
    assert_eq!(queue.enqueue('a'), Ok(()));
    assert_eq!(queue.enqueue('b'), Ok(()));
    queue.close();
    assert!(queue.is_closed());
    assert_eq!(queue.enqueue('c'), Err(PoolError::PoolClosed));
    assert_eq!(queue.len(), 2);
    assert_eq!(queue.dequeue(), Dequeued::Job('a'));
    assert_eq!(queue.dequeue(), Dequeued::Job('b'));
    assert_eq!(queue.dequeue(), Dequeued::Closed);
    assert_eq!(queue.dequeue(), Dequeued::Closed);
    queue.close();
    assert!(queue.is_closed());
    assert!(queue.is_empty());
}
