//! Which worker pool a model operation runs in.
//!
//! A model keeps a cached worker pool, tagged with the id of the process
//! that built it. A pool does not survive a fork, so before an operation
//! uses the cached pool, a process whose id differs from the tag rebuilds it
//! first. An operation may also ask for a pool of its own with a given
//! number of threads, which is built for that operation only.

use vstd::prelude::*;

verus! {

/// Stack size of each worker thread: 32 MiB.
pub const POOL_STACK_SIZE: usize = 32 * 1024 * 1024;

/// How a worker pool is to be built.
#[derive(Clone, Copy, Debug, PartialEq, Eq, Structural)]
pub struct PoolConfig {
    /// Number of threads; `None` (as well as `Some(0)`) lets the pool choose
    /// from the number of available cores.
    pub num_threads: Option<usize>,
    /// Stack size of each thread, in bytes.
    pub stack_size: usize,
}

impl PoolConfig {
    /// The configuration of the cached pool: as many threads as the pool
    /// chooses.
    pub fn default_pool() -> (config: Self)
        ensures
            config.num_threads is None,
            config.stack_size == POOL_STACK_SIZE,
    {
        PoolConfig { num_threads: None, stack_size: POOL_STACK_SIZE }
    }

    /// A pool with `n_threads` threads (0 lets the pool choose).
    pub fn with_threads(n_threads: usize) -> (config: Self)
        ensures
            config.num_threads == Some(n_threads),
            config.stack_size == POOL_STACK_SIZE,
    {
        PoolConfig { num_threads: Some(n_threads), stack_size: POOL_STACK_SIZE }
    }
}

/// The pool an operation runs in.
#[derive(Clone, Copy, Debug, PartialEq, Eq, Structural)]
pub enum PoolChoice {
    /// The model's cached pool.
    Cached,
    /// A pool built for this operation only.
    Dedicated(PoolConfig),
}

/// What to do before and during one operation.
#[derive(Clone, Copy, Debug, PartialEq, Eq, Structural)]
pub struct PoolPlan {
    /// When set, the cached pool is first rebuilt with this configuration;
    /// if that fails the operation fails, and the tracker is left as it was.
    pub rebuild_cached: Option<PoolConfig>,
    /// The pool that runs the operation.
    pub run_in: PoolChoice,
}

/// The pool that an operation asking for `n_threads` runs in.
pub open spec fn choice_for(n_threads: Option<usize>) -> PoolChoice {
    match n_threads {
        Some(n) => PoolChoice::Dedicated(PoolConfig { num_threads: Some(n), stack_size: POOL_STACK_SIZE }),
        None => PoolChoice::Cached,
    }
}

/// The plan for an operation run by process `current_pid` that asks for
/// `n_threads` threads, when process `owner` built the cached pool.
pub open spec fn plan_for(owner: usize, current_pid: usize, n_threads: Option<usize>) -> PoolPlan {
    PoolPlan {
        rebuild_cached: if current_pid != owner {
            Some(PoolConfig { num_threads: None, stack_size: POOL_STACK_SIZE })
        } else {
            None
        },
        run_in: choice_for(n_threads),
    }
}

/// Tracks which process built a model's cached pool.
#[derive(Debug)]
pub struct PoolTracker {
    cached_pid: usize,
}

impl PoolTracker {
    /// The id of the process that built the cached pool.
    pub closed spec fn owner(&self) -> usize {
        self.cached_pid
    }

    /// A tracker for a cached pool that process `pid` has just built.
    pub fn new(pid: usize) -> (tracker: Self)
        ensures
            tracker.owner() == pid,
    {
        PoolTracker { cached_pid: pid }
    }

    /// The id of the process that built the cached pool.
    pub fn cached_pid(&self) -> (pid: usize)
        ensures
            pid == self.owner(),
    {
        self.cached_pid
    }

    /// Whether process `current_pid` must rebuild the cached pool before
    /// using it: it did not build it.
    pub fn needs_rebuild(&self, current_pid: usize) -> (rebuild: bool)
        ensures
            rebuild == (current_pid != self.owner()),
    {
        current_pid != self.cached_pid
    }

    /// The plan for an operation run by process `current_pid` that asks for
    /// `n_threads` threads: rebuild the cached pool first if this process did
    /// not build it, then run in a pool of its own when a thread count is
    /// given, else in the cached pool.
    pub fn plan(&self, current_pid: usize, n_threads: Option<usize>) -> (plan: PoolPlan)
        ensures
            plan == plan_for(self.owner(), current_pid, n_threads),
            n_threads matches Some(n) ==> plan.run_in == (PoolChoice::Dedicated(
                (PoolConfig { num_threads: Some(n), stack_size: POOL_STACK_SIZE }),
            )),
            n_threads is None ==> plan.run_in == PoolChoice::Cached,
            (plan.rebuild_cached is Some) <==> current_pid != self.owner(),
            plan.rebuild_cached matches Some(c) ==> c == (PoolConfig { num_threads: None, stack_size: POOL_STACK_SIZE }),
    {
        let rebuild_cached = if self.needs_rebuild(current_pid) {
            Some(PoolConfig::default_pool())
        } else {
            None
        };
        let run_in = match n_threads {
            Some(n) => PoolChoice::Dedicated(PoolConfig::with_threads(n)),
            None => PoolChoice::Cached,
        };
        PoolPlan { rebuild_cached, run_in }
    }

    /// Records that process `pid` has rebuilt (or replaced) the cached pool.
    pub fn record_rebuild(&mut self, pid: usize)
        ensures
            final(self).owner() == pid,
    {
        self.cached_pid = pid;
    }
}

/// Once process `pid` has rebuilt the cached pool (and so owns it), its
/// operations do not rebuild it again; an operation of any other process
/// rebuilds it with the default configuration. Either way the pool that runs
/// the operation depends on the thread count asked for alone.
pub proof fn lemma_rebuild_only_after_fork(owner: usize, current_pid: usize, n_threads: Option<usize>)
    ensures
        plan_for(owner, owner, n_threads).rebuild_cached is None,
        current_pid != owner ==> plan_for(owner, current_pid, n_threads).rebuild_cached == Some(
            PoolConfig { num_threads: None, stack_size: POOL_STACK_SIZE },
        ),
        plan_for(owner, current_pid, n_threads).run_in == plan_for(current_pid, current_pid, n_threads).run_in,
{
}

/// An operation that asks for `n` threads runs in a pool of its own with
/// exactly `n` threads; one that asks for none runs in the cached pool.
/// The process running it and the owner of the cached pool do not change
/// this.
pub proof fn lemma_thread_count_picks_pool(owner: usize, current_pid: usize, n_threads: Option<usize>)
    ensures
        n_threads matches Some(n) ==> plan_for(owner, current_pid, n_threads).run_in == (PoolChoice::Dedicated(
            (PoolConfig { num_threads: Some(n), stack_size: POOL_STACK_SIZE }),
        )),
        n_threads is None ==> plan_for(owner, current_pid, n_threads).run_in == PoolChoice::Cached,
        (plan_for(owner, current_pid, n_threads).rebuild_cached is Some) <==> current_pid != owner,
{
}

} // verus!
