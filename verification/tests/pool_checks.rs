use workpool::errors::SendError;
use workpool::pool::WorkerPool;

#[test]
fn pool_runs_every_submitted_job_once() {
    let mut pool: WorkerPool<u64> = WorkerPool::new(3);
    for j in 0..10u64 {
        pool.submit(j).unwrap();
    }
    assert_eq!(pool.queued_count(), 10);
    let drained = pool.shutdown();
    assert_eq!(drained, (0..10u64).collect::<Vec<u64>>());
    assert_eq!(pool.queued_count(), 0);
    assert!(pool.shut_down());
}

#[test]
fn workers_take_jobs_in_submission_order() {
    let mut pool: WorkerPool<&str> = WorkerPool::new(2);
    pool.submit("first").unwrap();
    pool.submit("second").unwrap();
    assert_eq!(pool.take_next(0), Some("first"));
    assert_eq!(pool.take_next(1), Some("second"));
    assert_eq!(pool.take_next(0), None);
}

#[test]
fn submit_after_shutdown_fails_loudly() {
    let mut pool: WorkerPool<u8> = WorkerPool::new(1);
    pool.submit(1).unwrap();
    let _ = pool.shutdown();
    assert_eq!(pool.submit(2), Err(SendError::Closed));
}

#[test]
fn close_keeps_queued_jobs() {
    let mut pool: WorkerPool<u8> = WorkerPool::new(1);
    pool.submit(5).unwrap();
    pool.close();
    assert!(pool.shut_down());
    assert_eq!(pool.queued_count(), 1);
    assert_eq!(pool.take_next(0), Some(5));
}

#[test]
fn close_twice_is_a_no_op() {
    let mut pool: WorkerPool<u8> = WorkerPool::new(2);
    pool.close();
    pool.close();
    assert!(pool.shut_down());
    assert_eq!(pool.workers(), 2);
}

#[test]
fn shutdown_of_empty_pool_returns_nothing() {
    let mut pool: WorkerPool<u8> = WorkerPool::new(4);
    let drained = pool.shutdown();
    assert!(drained.is_empty());
}

#[test]
fn shutdown_after_some_turns_drains_the_rest() {
    let mut pool: WorkerPool<u64> = WorkerPool::new(2);
    for j in 0..6u64 {
        pool.submit(j).unwrap();
    }
    assert_eq!(pool.take_next(0), Some(0));
    assert_eq!(pool.take_next(1), Some(1));
    let drained = pool.shutdown();
    assert_eq!(drained, vec![2, 3, 4, 5]);
}
