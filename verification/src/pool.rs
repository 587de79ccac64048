//! The worker pool's launch plan. The pool owns a fixed collection of
//! priority-tuned worker threads: exactly `worker_count` of them, every one
//! at `worker_priority`, launched fire-and-forget for the life of the
//! process. The plan fixes, per worker, the priority its thread must be
//! pinned to; the I/O shell spawns one thread per entry and treats a
//! refused spawn or priority assignment as fatal.

use vstd::prelude::*;
use crate::config::SchedulerConfig;

verus! {

/// The priorities of a full pool for `config`: one entry per configured
/// worker, each the configured worker priority.
pub open spec fn pool_plan_spec(config: SchedulerConfig) -> Seq<i32> {
    Seq::new(config.worker_count as nat, |i: int| config.worker_priority)
}

/// Builds the launch plan: one priority per worker thread to spawn.
pub fn worker_priorities(config: &SchedulerConfig) -> (plan: Vec<i32>)
    ensures
        plan@ == pool_plan_spec(*config),
        plan@.len() == config.worker_count,
{
    let mut plan: Vec<i32> = Vec::new();
    let mut i: usize = 0;
    while i < config.worker_count
        invariant
            i <= config.worker_count,
            plan@ == pool_plan_spec(*config).subrange(0, i as int),
        decreases config.worker_count - i,
    {
        plan.push(config.worker_priority);
        proof {
            assert(plan@ =~= pool_plan_spec(*config).subrange(0, i + 1));
        }
        i = i + 1;
    }
    proof {
        assert(plan@ =~= pool_plan_spec(*config));
    }
    plan
}

} // verus!
