use omikuji_python::pool::PoolChoice;
use omikuji_python::pool::PoolConfig;
use omikuji_python::pool::PoolPlan;
use omikuji_python::pool::PoolTracker;
use omikuji_python::pool::POOL_STACK_SIZE;

#[test]
fn stack_size_is_32_mib() {
    assert_eq!(POOL_STACK_SIZE, 33554432);
    assert_eq!(PoolConfig::default_pool(), PoolConfig { num_threads: None, stack_size: 33554432 });
    assert_eq!(PoolConfig::with_threads(4), PoolConfig { num_threads: Some(4), stack_size: 33554432 });
}

#[test]
fn same_process_uses_cached_pool() {
    let tracker = PoolTracker::new(100);
    assert!(!tracker.needs_rebuild(100));
    assert_eq!(
        tracker.plan(100, None),
        PoolPlan { rebuild_cached: None, run_in: PoolChoice::Cached }
    );
}

#[test]
fn forked_process_rebuilds_cached_pool() {
    let tracker = PoolTracker::new(100);
    assert!(tracker.needs_rebuild(101));
    assert_eq!(
        tracker.plan(101, None),
        PoolPlan { rebuild_cached: Some(PoolConfig::default_pool()), run_in: PoolChoice::Cached }
    );
}

#[test]
fn thread_count_asks_for_dedicated_pool() {
    let tracker = PoolTracker::new(7);
    assert_eq!(
        tracker.plan(7, Some(3)),
        PoolPlan { rebuild_cached: None, run_in: PoolChoice::Dedicated(PoolConfig::with_threads(3)) }
    );
    assert_eq!(
        tracker.plan(8, Some(0)),
        PoolPlan {
            rebuild_cached: Some(PoolConfig::default_pool()),
            run_in: PoolChoice::Dedicated(PoolConfig::with_threads(0)),
        }
    );
}

#[test]
fn no_rebuild_after_record() {
    let mut tracker = PoolTracker::new(1);
    assert!(tracker.needs_rebuild(2));
    tracker.record_rebuild(2);
    assert_eq!(tracker.cached_pid(), 2);
    assert!(!tracker.needs_rebuild(2));
    assert!(tracker.needs_rebuild(1));
}
