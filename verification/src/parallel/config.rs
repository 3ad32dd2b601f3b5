//! Configuration of the parallel scheduler.

use vstd::prelude::*;

use crate::duration::DurationMs;
use crate::timeout::{default_timeout_config, TimeoutConfig};

verus! {

/// Strategy for detecting conflicts between parallel story executions.
#[derive(Clone, Copy, Debug, PartialEq, Eq, Structural)]
pub enum ConflictStrategy {
    /// Conflicts by overlapping target files; the one strategy the
    /// scheduler implements.
    FileBased,
    /// Conflicts by entity references; a forward-compatible tag.
    EntityBased,
    /// No conflict detection; a forward-compatible tag.
    NoDetection,
}

impl Default for ConflictStrategy {
    fn default() -> (r: Self)
        ensures
            r == ConflictStrategy::FileBased,
    {
        ConflictStrategy::FileBased
    }
}

/// How to handle backpressure when the pending queue is full.
#[derive(Clone, Copy, Debug, PartialEq, Eq, Structural)]
pub enum QueuePolicy {
    /// Wait for queue capacity to free up.
    Block,
    /// Reject new stories when the queue is full.
    Reject,
    /// Drop the oldest queued story to make room.
    DropOldest,
}

impl QueuePolicy {
    /// The stable label of this policy.
    pub fn as_label(&self) -> (r: &'static str)
        ensures
            *self == QueuePolicy::Block ==> r@ == "block"@,
            *self == QueuePolicy::Reject ==> r@ == "reject"@,
            *self == QueuePolicy::DropOldest ==> r@ == "drop_oldest"@,
    {
        match self {
            QueuePolicy::Block => "block",
            QueuePolicy::Reject => "reject",
            QueuePolicy::DropOldest => "drop_oldest",
        }
    }
}

/// Configuration options for parallel story execution.
#[derive(Clone, Debug)]
pub struct ParallelRunnerConfig {
    /// Maximum number of stories executing concurrently.
    pub max_concurrency: u32,
    /// Maximum number of stories in the pending queue.
    pub queue_capacity: usize,
    /// Backpressure policy when the queue is full.
    pub queue_policy: QueuePolicy,
    /// Wait between queue capacity checks when blocking.
    pub queue_wait: DurationMs,
    /// Whether to infer dependencies from file patterns.
    pub infer_dependencies: bool,
    /// Whether to fall back to sequential execution on conflicts.
    pub fallback_to_sequential: bool,
    /// Strategy for detecting conflicts between parallel stories.
    pub conflict_strategy: ConflictStrategy,
    /// Timeout configuration for execution limits.
    pub timeout_config: TimeoutConfig,
    /// Timeout for an entire batch of parallel executions.
    pub batch_timeout: DurationMs,
    /// Cumulative non-transient failures that trip the circuit breaker.
    pub circuit_breaker_threshold: u32,
}

/// The default scheduler configuration: 3 workers, a 32-slot blocking
/// queue, inference and sequential fallback on, a 30-minute batch timeout
/// and a breaker threshold of 5.
pub open spec fn default_runner_config_fields(c: ParallelRunnerConfig) -> bool {
    &&& c.max_concurrency == 3
    &&& c.queue_capacity == 32
    &&& c.queue_policy == QueuePolicy::Block
    &&& c.queue_wait.millis == 200
    &&& c.infer_dependencies
    &&& c.fallback_to_sequential
    &&& c.conflict_strategy == ConflictStrategy::FileBased
    &&& c.timeout_config == default_timeout_config()
    &&& c.batch_timeout.millis == 1_800_000
    &&& c.circuit_breaker_threshold == 5
}

impl Default for ParallelRunnerConfig {
    fn default() -> (r: Self)
        ensures
            default_runner_config_fields(r),
    {
        ParallelRunnerConfig {
            max_concurrency: 3,
            queue_capacity: 32,
            queue_policy: QueuePolicy::Block,
            queue_wait: DurationMs { millis: 200 },
            infer_dependencies: true,
            fallback_to_sequential: true,
            conflict_strategy: ConflictStrategy::FileBased,
            timeout_config: TimeoutConfig::default(),
            batch_timeout: DurationMs { millis: 1_800_000 },
            circuit_breaker_threshold: 5,
        }
    }
}

} // verus!
