//! Queue status reporting for embedded assistant tooling.

use vstd::prelude::*;

verus! {

/// Request parameters of the queue-status query; it takes none.
#[derive(Clone, Copy, Debug, PartialEq, Eq, Structural)]
pub struct GetQueueStatusRequest {}

/// The queue status reported to embedded assistant tooling.
#[derive(Clone, Debug)]
pub struct GetQueueStatusResponse {
    /// Stories waiting in the queue.
    pub queue_size: usize,
    /// Maximum queue capacity.
    pub queue_capacity: usize,
    /// The story currently running, if any.
    pub running_story_id: Option<String>,
    /// When the running story started, as a Unix timestamp in seconds.
    pub running_started_at: Option<u64>,
    /// Elapsed seconds of the running story.
    pub running_elapsed_secs: Option<u64>,
    /// Mean duration in seconds over recent completions.
    pub average_duration_secs: Option<u64>,
    /// Estimated seconds until the queue drains.
    pub estimated_wait_secs: Option<u64>,
}

} // verus!
