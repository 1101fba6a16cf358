//! Tests of the permit pool: the number of concurrently admitted tasks
//! never exceeds the limit, whatever the interleaving.

use tcg_fetch::sched::PermitPool;

#[test]
fn admitted_tasks_never_exceed_the_limit() {
    let limit: usize = 3;
    let tasks: usize = 10;
    let mut pool = PermitPool::new(limit);
    let mut max_active: usize = 0;
    let mut started: usize = 0;
    let mut finished: usize = 0;
    // Greedy schedule: admit while a permit is free, then retire the oldest
    // running task; every task runs exactly once.
    while finished < tasks {
        while started < tasks && pool.try_acquire() {
            started += 1;
            if pool.active_count() > max_active {
                max_active = pool.active_count();
            }
        }
        pool.release();
        finished += 1;
    }
    assert_eq!(max_active, limit);
    assert!(max_active <= limit);
    assert_eq!(pool.active_count(), 0);
}

#[test]
fn full_pool_admits_nothing_until_a_release() {
    let mut pool = PermitPool::new(2);
    assert!(pool.try_acquire());
    assert!(pool.try_acquire());
    assert!(!pool.try_acquire());
    assert_eq!(pool.active_count(), 2);
    pool.release();
    assert!(pool.try_acquire());
    assert_eq!(pool.active_count(), 2);
}

#[test]
fn limit_one_serializes_tasks() {
    let mut pool = PermitPool::new(1);
    assert_eq!(pool.limit_value(), 1);
    for _ in 0..5 {
        assert!(pool.try_acquire());
        assert!(!pool.try_acquire());
        pool.release();
    }
    assert_eq!(pool.active_count(), 0);
}
