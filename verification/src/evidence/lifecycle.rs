//! Lifecycle events: the run-start, step and run-complete records of a run.

use vstd::prelude::*;

use crate::clock::now_unix_millis;
use crate::clock::rfc3339_millis_of;

verus! {

/// The schema version label written into every lifecycle event.
pub const LIFECYCLE_SCHEMA_VERSION: &'static str = "v1";

/// Lifecycle event types of a run.
#[derive(Clone, Copy, Debug, PartialEq, Eq, Structural)]
pub enum LifecycleEventType {
    /// The run began.
    RunStart,
    /// One story step reached a terminal status.
    Step,
    /// The run ended.
    RunComplete,
}

/// The characters of an event type's label.
pub open spec fn spec_event_label(t: LifecycleEventType) -> Seq<char> {
    match t {
        LifecycleEventType::RunStart => "run_start"@,
        LifecycleEventType::Step => "step"@,
        LifecycleEventType::RunComplete => "run_complete"@,
    }
}

impl LifecycleEventType {
    /// The stable label of this event type.
    pub fn label(&self) -> (r: &'static str)
        ensures
            r@ == spec_event_label(*self),
    {
        match self {
            LifecycleEventType::RunStart => "run_start",
            LifecycleEventType::Step => "step",
            LifecycleEventType::RunComplete => "run_complete",
        }
    }
}

/// A lifecycle event payload stored as evidence.
#[derive(Clone, Debug)]
pub struct LifecycleEvent {
    /// The payload schema version.
    pub schema_version: String,
    /// The event type.
    pub event_type: LifecycleEventType,
    /// The event timestamp, as an RFC 3339 string with milliseconds.
    pub timestamp: String,
    /// The run the event belongs to.
    pub run_id: String,
    /// The step the event belongs to; `run` for run-level events.
    pub step_id: String,
    /// A status tag, when one applies.
    pub status: Option<String>,
    /// An error-type tag, when one applies.
    pub error_type: Option<String>,
    /// An error message, when one applies.
    pub error_message: Option<String>,
}

impl LifecycleEvent {
    /// A fresh event of the given type, stamped with the current time.
    pub fn new(event_type: LifecycleEventType, run_id: String, step_id: String) -> (r: Self)
        ensures
            r.event_type == event_type,
            r.run_id == run_id,
            r.step_id == step_id,
            r.status is None,
            r.error_type is None,
            r.error_message is None,
            r.schema_version@ == "v1"@,
            exists|ms: u64| r.timestamp@ == crate::clock::rfc3339_millis_chars(ms),
    {
        proof {
            reveal_strlit("v1");
        }
        let stamp_ms = now_unix_millis();
        let r = LifecycleEvent {
            schema_version: String::from_str(LIFECYCLE_SCHEMA_VERSION),
            event_type,
            timestamp: rfc3339_millis_of(stamp_ms),
            run_id,
            step_id,
            status: None,
            error_type: None,
            error_message: None,
        };
        proof {
            assert(r.timestamp@ == crate::clock::rfc3339_millis_chars(stamp_ms));
        }
        r
    }
}

} // verus!
