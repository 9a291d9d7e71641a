use sandbox_pool::pool::{AcquireStep, Pool};

fn expect_warm(step: AcquireStep) -> sandbox_pool::guard::ContextGuard {
    match step {
        AcquireStep::Warm(g) => g,
        AcquireStep::Creating => panic!("expected a warm context, factory was asked"),
        AcquireStep::Blocked => panic!("expected a warm context, gate was exhausted"),
    }
}

#[test]
fn warm_up_fills_store() {
    let mut pool = Pool::new(100);
    pool.warm_up(10);
    assert_eq!(pool.idle_count(), 10);
    assert_eq!(pool.created_count(), 10);
    assert_eq!(pool.available_permits(), 100);
    assert_eq!(pool.pending_count(), 0);
}

#[test]
fn acquire_creates_when_store_is_empty() {
    let mut pool = Pool::new(2);
    let step = pool.try_acquire();
    assert!(matches!(step, AcquireStep::Creating));
    assert_eq!(pool.created_count(), 0);
    assert_eq!(pool.pending_count(), 1);
    let guard = pool.finish_create();
    assert_eq!(guard.context_id(), 0);
    assert_eq!(pool.created_count(), 1);
    assert_eq!(pool.pending_count(), 0);
    assert_eq!(pool.available_permits(), 1);
}

#[test]
fn acquire_reuses_before_creating() {
    let mut pool = Pool::new(4);
    pool.warm_up(2);
    for _ in 0..20 {
        let guard = expect_warm(pool.try_acquire());
        pool.release(guard);
    }
    assert_eq!(pool.created_count(), 2);
    assert_eq!(pool.idle_count(), 2);
    assert_eq!(pool.available_permits(), 4);
}

#[test]
fn reuse_takes_most_recently_released_first() {
    let mut pool = Pool::new(3);
    pool.warm_up(2);
    let first = expect_warm(pool.try_acquire());
    let second = expect_warm(pool.try_acquire());
    let second_id = second.context_id();
    pool.release(first);
    pool.release(second);
    // The context released last comes back first.
    let again = expect_warm(pool.try_acquire());
    assert_eq!(again.context_id(), second_id);
    pool.release(again);
}

#[test]
fn failed_creation_leaves_pool_unchanged() {
    let mut pool = Pool::new(2);
    let step = pool.try_acquire();
    assert!(matches!(step, AcquireStep::Creating));
    assert_eq!(pool.available_permits(), 1);
    pool.cancel_create();
    assert_eq!(pool.available_permits(), 2);
    assert_eq!(pool.created_count(), 0);
    assert_eq!(pool.idle_count(), 0);
    assert_eq!(pool.pending_count(), 0);
}

#[test]
fn capacity_one_blocks_second_acquire() {
    let mut pool = Pool::new(1);
    let step = pool.try_acquire();
    assert!(matches!(step, AcquireStep::Creating));
    let guard = pool.finish_create();
    let while_outstanding = pool.try_acquire();
    assert!(matches!(while_outstanding, AcquireStep::Blocked));
    assert_eq!(pool.created_count(), 1);
    let id = guard.context_id();
    pool.release(guard);
    let after_release = expect_warm(pool.try_acquire());
    assert_eq!(after_release.context_id(), id);
    assert_eq!(pool.created_count(), 1);
}

#[test]
fn outstanding_guards_wrap_distinct_contexts() {
    let mut pool = Pool::new(3);
    pool.warm_up(2);
    let a = expect_warm(pool.try_acquire());
    let b = expect_warm(pool.try_acquire());
    let step = pool.try_acquire();
    assert!(matches!(step, AcquireStep::Creating));
    let c = pool.finish_create();
    assert_ne!(a.context_id(), b.context_id());
    assert_ne!(a.context_id(), c.context_id());
    assert_ne!(b.context_id(), c.context_id());
}

#[test]
fn scenario_warm_two_capacity_three() {
    let mut pool = Pool::new(3);
    pool.warm_up(2);
    assert_eq!(pool.idle_count(), 2);
    assert_eq!(pool.created_count(), 2);

    let first = expect_warm(pool.try_acquire());
    let second = expect_warm(pool.try_acquire());
    let step = pool.try_acquire();
    assert!(matches!(step, AcquireStep::Creating));
    let third = pool.finish_create();
    assert_eq!(pool.created_count(), 3);

    let fourth = pool.try_acquire();
    assert!(matches!(fourth, AcquireStep::Blocked));

    pool.release(second);
    let after_release = expect_warm(pool.try_acquire());
    pool.release(after_release);
    pool.release(first);
    pool.release(third);
    assert_eq!(pool.created_count(), 3);
    assert_eq!(pool.idle_count(), 3);
    assert_eq!(pool.available_permits(), 3);
}

#[test]
fn warm_up_to_full_capacity() {
    let mut pool = Pool::new(2);
    pool.warm_up(2);
    assert_eq!(pool.idle_count(), 2);
    assert_eq!(pool.created_count(), 2);
    let a = expect_warm(pool.try_acquire());
    let b = expect_warm(pool.try_acquire());
    // Capacity is fully outstanding: the next attempt blocks, it is not
    // told to create.
    let step = pool.try_acquire();
    assert!(matches!(step, AcquireStep::Blocked));
    pool.release(a);
    pool.release(b);
    assert_eq!(pool.idle_count(), 2);
    assert_eq!(pool.created_count(), 2);
}

#[test]
fn created_count_never_decreases() {
    let mut pool = Pool::new(2);
    let mut last = pool.created_count();
    pool.warm_up(1);
    assert!(pool.created_count() >= last);
    last = pool.created_count();

    let warm = expect_warm(pool.try_acquire());
    assert!(pool.created_count() >= last);
    last = pool.created_count();

    let step = pool.try_acquire();
    assert!(matches!(step, AcquireStep::Creating));
    let fresh = pool.finish_create();
    assert!(pool.created_count() >= last);
    last = pool.created_count();

    pool.release(warm);
    pool.release(fresh);
    assert!(pool.created_count() >= last);
    assert_eq!(pool.created_count(), 2);
}
