//! Consolidated evidence export of one run, and the status derived from
//! its recorded events.

use vstd::prelude::*;

use crate::evidence::record::{EvidenceRecord, EvidenceRunMetadata};
use crate::json::parse_json;
use crate::metrics::RunMetrics;

verus! {

/// A stable export status for a run.
#[derive(Clone, Copy, Debug, PartialEq, Eq, Structural)]
pub enum RunStatus {
    /// The run ended with every step passing.
    Success,
    /// The run ended with a failure.
    Failed,
    /// No complete outcome was recorded.
    Incomplete,
}

/// An exported evidence bundle for a single run.
#[derive(Debug)]
pub struct EvidenceRunExport {
    /// Evidence schema version.
    pub schema_version: u32,
    /// The run exported.
    pub run_id: String,
    /// The derived run status.
    pub status: RunStatus,
    /// The run's metadata, when its manifest was found.
    pub metadata: Option<EvidenceRunMetadata>,
    /// The run's metrics snapshot, when one was found.
    pub metrics: Option<RunMetrics>,
    /// The run's evidence records, in append order.
    pub events: Vec<EvidenceRecord>,
}

/// An evidence exporter rooted in a base directory. Reading the stored
/// files back is input/output work done outside the library; assembling
/// and judging what was read happens here.
#[derive(Clone, Debug)]
pub struct EvidenceExporter {
    /// The base directory the stores live under.
    pub base_dir: String,
}

impl EvidenceExporter {
    /// An exporter rooted at the given base directory.
    pub fn new(base_dir: String) -> (r: Self)
        ensures
            r.base_dir == base_dir,
    {
        EvidenceExporter { base_dir }
    }
}

/// The status of a run, judged from its events and metrics: incomplete
/// when the metrics expect steps and completeness is short of full, else
/// decided by the last run-complete lifecycle event, else incomplete.
pub fn determine_run_status(events: &Vec<EvidenceRecord>, metrics: Option<&RunMetrics>) -> (r:
    RunStatus)
    ensures
        (metrics matches Some(m) && m.expected_steps > 0 && m.completeness_percent < 100)
            ==> r == RunStatus::Incomplete,
{
    if let Some(m) = metrics {
        if m.expected_steps > 0 && m.completeness_percent < 100 {
            return RunStatus::Incomplete;
        }
    }
    let mut i: usize = events.len();
    while i > 0
        invariant
            i <= events@.len(),
            metrics matches Some(m) ==> !(m.expected_steps > 0 && m.completeness_percent < 100),
        decreases i,
    {
        i -= 1;
        let record = &events[i];
        if crate::text::str_eq(record.kind.as_str(), "lifecycle") {
            if let Some(payload) = parse_json(record.payload_json.as_str()) {
                let is_complete = match payload.get("event_type") {
                    Some(t) => match t.as_str() {
                        Some(s) => crate::text::str_eq(s, "run_complete"),
                        None => false,
                    },
                    None => false,
                };
                if is_complete {
                    let is_success = match payload.get("status") {
                        Some(st) => match st.as_str() {
                            Some(s) => crate::text::str_eq(s, "success"),
                            None => false,
                        },
                        None => false,
                    };
                    if is_success {
                        return RunStatus::Success;
                    } else {
                        return RunStatus::Failed;
                    }
                }
            }
        }
    }
    RunStatus::Incomplete
}

} // verus!
