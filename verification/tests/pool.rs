use data_forward_server::pool::{PoolError, WorkerHandle, WorkerPool};

const A: WorkerHandle = WorkerHandle(1);
const B: WorkerHandle = WorkerHandle(2);
const C: WorkerHandle = WorkerHandle(3);
const D: WorkerHandle = WorkerHandle(4);

#[test]
fn new_pool_is_empty() {
    let pool = WorkerPool::new();
    assert_eq!(pool.len(), 0);
    assert!(!pool.contains(A));
}

#[test]
fn select_on_empty_pool_fails() {
    let mut pool = WorkerPool::new();
    assert_eq!(pool.select_next(), Err(PoolError::EmptyPool));
    assert_eq!(pool.select_next(), Err(PoolError::EmptyPool));
    assert_eq!(pool.len(), 0);
}

#[test]
fn register_grows_the_pool() {
    let mut pool = WorkerPool::new();
    pool.register(A);
    assert_eq!(pool.len(), 1);
    pool.register(B);
    assert_eq!(pool.len(), 2);
    assert!(pool.contains(A));
    assert!(pool.contains(B));
    assert!(!pool.contains(C));
}

#[test]
fn deregister_shrinks_the_pool() {
    let mut pool = WorkerPool::new();
    pool.register(A);
    pool.register(B);
    pool.deregister(A);
    assert_eq!(pool.len(), 1);
    assert!(!pool.contains(A));
    assert!(pool.contains(B));
}

#[test]
fn deregister_of_absent_handle_does_nothing() {
    let mut pool = WorkerPool::new();
    pool.register(A);
    pool.deregister(B);
    assert_eq!(pool.len(), 1);
    pool.deregister(A);
    pool.deregister(A);
    assert_eq!(pool.len(), 0);
}

#[test]
fn deregister_takes_the_first_occurrence_only() {
    let mut pool = WorkerPool::new();
    pool.register(A);
    pool.register(B);
    pool.register(A);
    pool.deregister(A);
    assert_eq!(pool.len(), 2);
    assert_eq!(pool.select_next(), Ok(B));
    assert_eq!(pool.select_next(), Ok(A));
}

#[test]
fn selection_goes_round_and_wraps() {
    let mut pool = WorkerPool::new();
    pool.register(A);
    pool.register(B);
    assert_eq!(pool.select_next(), Ok(A));
    assert_eq!(pool.select_next(), Ok(B));
    assert_eq!(pool.select_next(), Ok(A));
    assert_eq!(pool.select_next(), Ok(B));
}

#[test]
fn single_worker_is_always_selected() {
    let mut pool = WorkerPool::new();
    pool.register(C);
    assert_eq!(pool.select_next(), Ok(C));
    assert_eq!(pool.select_next(), Ok(C));
}

#[test]
fn a_round_returns_every_handle_once() {
    let mut pool = WorkerPool::new();
    for handle in [A, B, C, D] {
        pool.register(handle);
    }
    assert_eq!(pool.select_next(), Ok(A));
    let mut round = Vec::new();
    for _ in 0..4 {
        round.push(pool.select_next().unwrap());
    }
    assert_eq!(round, vec![B, C, D, A]);
    let mut again = Vec::new();
    for _ in 0..4 {
        again.push(pool.select_next().unwrap());
    }
    assert_eq!(again, round);
}

#[test]
fn cursor_is_folded_into_a_shrunken_pool() {
    let mut pool = WorkerPool::new();
    pool.register(A);
    pool.register(B);
    pool.register(C);
    assert_eq!(pool.select_next(), Ok(A));
    assert_eq!(pool.select_next(), Ok(B));
    // the cursor stands at 2, and the pool shrinks to two handles
    pool.deregister(C);
    assert_eq!(pool.select_next(), Ok(A));
    assert_eq!(pool.select_next(), Ok(B));
}

#[test]
fn selection_never_returns_a_deregistered_handle() {
    let mut pool = WorkerPool::new();
    pool.register(A);
    pool.register(B);
    pool.register(C);
    pool.deregister(B);
    for _ in 0..6 {
        let picked = pool.select_next().unwrap();
        assert_ne!(picked, B);
        assert!(pool.contains(picked));
    }
    pool.deregister(A);
    pool.deregister(C);
    assert_eq!(pool.select_next(), Err(PoolError::EmptyPool));
}

#[test]
fn a_late_worker_joins_the_rotation() {
    let mut pool = WorkerPool::new();
    pool.register(A);
    assert_eq!(pool.select_next(), Ok(A));
    pool.register(B);
    assert_eq!(pool.select_next(), Ok(A));
    assert_eq!(pool.select_next(), Ok(B));
    assert_eq!(pool.select_next(), Ok(A));
}
