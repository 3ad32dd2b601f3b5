//! Evidence store configuration.

use vstd::prelude::*;

verus! {

/// The environment variable naming the retention period in days.
pub const RETENTION_ENV_VAR: &'static str = "RALPH_EVIDENCE_RETENTION_DAYS";

/// The default retention period in days.
pub const DEFAULT_RETENTION_DAYS: u64 = 30;

/// Configuration for evidence storage.
#[derive(Clone, Copy, Debug, PartialEq, Eq, Structural)]
pub struct EvidenceStoreConfig {
    /// Retention period in days; 0 disables retention pruning.
    pub retention_days: u64,
}

impl EvidenceStoreConfig {
    /// A config with the given retention period.
    pub fn new(retention_days: u64) -> (r: Self)
        ensures
            r.retention_days == retention_days,
    {
        EvidenceStoreConfig { retention_days }
    }
}

impl Default for EvidenceStoreConfig {
    /// The default retention period.
    fn default() -> (r: Self)
        ensures
            r.retention_days == DEFAULT_RETENTION_DAYS,
    {
        EvidenceStoreConfig { retention_days: DEFAULT_RETENTION_DAYS }
    }
}

} // verus!
