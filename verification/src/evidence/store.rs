//! The evidence store: its directory layout and the retention rule that
//! decides which run directories a pruning pass removes.
//!
//! Scanning and deleting directories is input/output work done outside
//! the library; the decision of what to delete is made here.

use vstd::prelude::*;

use crate::evidence::config::EvidenceStoreConfig;
use crate::evidence::record::EvidenceRecord;

verus! {

/// Errors of evidence storage operations.
#[derive(Clone, Debug)]
pub enum EvidenceError {
    /// An input/output error, with its rendering.
    Io(String),
    /// A JSON error, with its rendering.
    Json(String),
    /// An invalid run identifier.
    InvalidRunId,
}

impl EvidenceError {
    /// A human-readable rendering of the error.
    pub fn message(&self) -> (r: String)
    {
        match self {
            EvidenceError::Io(m) => {
                let mut out = String::from_str("IO error: ");
                out.append(m.as_str());
                out
            },
            EvidenceError::Json(m) => {
                let mut out = String::from_str("JSON error: ");
                out.append(m.as_str());
                out
            },
            EvidenceError::InvalidRunId => String::from_str("Invalid run ID"),
        }
    }
}

/// An evidence store rooted in a base directory.
#[derive(Clone, Debug)]
pub struct EvidenceStore {
    /// The evidence root directory, `<base>/.ralph/evidence`.
    pub root_dir: String,
    /// Retention period in days; 0 disables retention pruning.
    pub retention_days: u64,
}

impl EvidenceStore {
    /// A store rooted under `<base>/.ralph/evidence`.
    pub fn new(base_dir: &str, config: EvidenceStoreConfig) -> (r: Self)
        ensures
            r.retention_days == config.retention_days,
    {
        let mut root = String::from_str(base_dir);
        root.append("/.ralph/evidence");
        EvidenceStore { root_dir: root, retention_days: config.retention_days }
    }

    /// The evidence root directory path.
    pub fn root_dir(&self) -> (r: &String)
        ensures
            r == self.root_dir,
    {
        &self.root_dir
    }

    /// The directory of one run's evidence.
    pub fn run_dir(&self, run_id: &str) -> (r: String)
        ensures
            r@ == self.root_dir@ + "/runs/"@ + run_id@,
    {
        let mut dir = self.root_dir.clone();
        dir.append("/runs/");
        dir.append(run_id);
        dir
    }
}

/// Whether a run id is valid for storage: some byte of it is not
/// whitespace.
pub open spec fn spec_valid_run_id(id: Seq<char>) -> bool {
    exists|k: int|
        0 <= k < vstd::utf8::encode_utf8(id).len() && !crate::text::is_space_byte(
            #[trigger] vstd::utf8::encode_utf8(id)[k],
        )
}

/// Check whether a run id is valid for storage.
pub fn is_valid_run_id(id: &str) -> (r: bool)
    ensures
        r == spec_valid_run_id(id@),
{
    let bytes = id.as_bytes();
    let (a, b) = crate::text::trim_range(bytes, 0, bytes.len());
    proof {
        if a < b {
            assert(!crate::text::is_space_byte(bytes@[a as int]));
        } else {
            assert forall|k: int| 0 <= k < bytes@.len() implies crate::text::is_space_byte(
                #[trigger] bytes@[k],
            ) by {}
        }
    }
    a < b
}

impl EvidenceStore {
    /// Serialize a record for appending to its run's events log: the line
    /// to append on `Ok`, and `InvalidRunId` — with nothing to write —
    /// exactly when the record's run id is blank.
    pub fn append_record_line(&self, record: &EvidenceRecord) -> (r: Result<String, EvidenceError>)
        ensures
            r is Ok <==> spec_valid_run_id(record.run_id@),
            r matches Ok(line) ==> line@ == crate::evidence::record::spec_record_line(*record),
            r matches Err(e) ==> e is InvalidRunId,
    {
        if !is_valid_run_id(record.run_id.as_str()) {
            return Err(EvidenceError::InvalidRunId);
        }
        Ok(record.to_json_line())
    }
}

/// The retention cutoff: `now` less the retention period, saturating at
/// zero; none when retention is disabled.
pub open spec fn spec_retention_cutoff(now_ms: u64, retention_days: u64) -> Option<int> {
    if retention_days == 0 {
        None
    } else {
        let span = retention_days * 86_400_000;
        Some(if now_ms >= span { now_ms - span } else { 0 })
    }
}

/// Compute the retention cutoff.
pub fn retention_cutoff(now_ms: u64, retention_days: u64) -> (r: Option<u64>)
    requires
        retention_days <= 106_751_991_167,
    ensures
        match r {
            Some(c) => spec_retention_cutoff(now_ms, retention_days) == Some(c as int),
            None => retention_days == 0,
        },
{
    if retention_days == 0 {
        None
    } else {
        let span: u64 = retention_days * 86_400_000;
        Some(if now_ms >= span { now_ms - span } else { 0 })
    }
}

/// Whether `id` appears among the listed names.
pub open spec fn spec_listed(out: Seq<String>, id: Seq<char>) -> bool {
    exists|k: int| 0 <= k < out.len() && (#[trigger] out[k])@ == id
}

/// Whether `name` names a run in `runs` created strictly before `cutoff`.
pub open spec fn spec_expired(runs: Seq<(String, u64)>, cutoff: int, name: String) -> bool {
    exists|w: int| 0 <= w < runs.len() && (#[trigger] runs[w]).0@ == name@ && runs[w].1 < cutoff
}

/// The runs a retention pass removes: exactly those created strictly
/// before the cutoff. With retention disabled, nothing is removed; every
/// run created at or after the cutoff is preserved.
pub fn runs_to_delete(runs: &Vec<(String, u64)>, now_ms: u64, retention_days: u64) -> (r: Vec<
    String,
>)
    requires
        retention_days <= 106_751_991_167,
    ensures
        retention_days == 0 ==> r@.len() == 0,
        retention_days > 0 ==> ({
            let cutoff = spec_retention_cutoff(now_ms, retention_days).unwrap();
            &&& forall|k: int| 0 <= k < r@.len() ==> spec_expired(runs@, cutoff, #[trigger] r@[k])
            &&& forall|w: int| 0 <= w < runs@.len() && (#[trigger] runs@[w]).1 < cutoff
                ==> spec_listed(r@, runs@[w].0@)
        }),
{
    let cutoff = match retention_cutoff(now_ms, retention_days) {
        Some(c) => c,
        None => {
            return Vec::new();
        },
    };
    let mut out: Vec<String> = Vec::new();
    let mut i: usize = 0;
    while i < runs.len()
        invariant
            i <= runs@.len(),
            spec_retention_cutoff(now_ms, retention_days) == Some(cutoff as int),
            forall|k: int| 0 <= k < out@.len() ==> spec_expired(
                runs@,
                cutoff as int,
                #[trigger] out@[k],
            ),
            forall|w: int| 0 <= w < i && (#[trigger] runs@[w]).1 < cutoff ==> spec_listed(
                out@,
                runs@[w].0@,
            ),
        decreases runs@.len() - i,
    {
        let ghost pre = out@;
        if runs[i].1 < cutoff {
            out.push(runs[i].0.clone());
            proof {
                let last = out@.len() - 1;
                assert(out@[last]@ == runs@[i as int].0@);
                assert(spec_expired(runs@, cutoff as int, out@[last]));
                assert forall|k: int| 0 <= k < out@.len() implies spec_expired(
                    runs@,
                    cutoff as int,
                    #[trigger] out@[k],
                ) by {
                    if k < last {
                        assert(out@[k] == pre[k]);
                        assert(spec_expired(runs@, cutoff as int, pre[k]));
                    }
                }
                assert forall|w: int| 0 <= w < i + 1 && (#[trigger] runs@[w]).1 < cutoff implies
                    spec_listed(out@, runs@[w].0@) by {
                    if w < i {
                        let k = choose|k: int| 0 <= k < pre.len() && (#[trigger] pre[k])@
                            == runs@[w].0@;
                        assert(out@[k] == pre[k]);
                        assert(out@[k]@ == runs@[w].0@);
                    } else {
                        assert(out@[last]@ == runs@[w].0@);
                    }
                }
            }
        } else {
            proof {
                assert forall|w: int| 0 <= w < i + 1 && (#[trigger] runs@[w]).1 < cutoff implies
                    spec_listed(out@, runs@[w].0@) by {
                    assert(w < i);
                }
            }
        }
        i += 1;
    }
    out
}

} // verus!
