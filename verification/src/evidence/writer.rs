//! The evidence writer: the strictly append-only event log of one run.
//!
//! Appending produces the serialized line for durable storage; persisting
//! the lines and syncing files is input/output work done outside the
//! library.

use vstd::prelude::*;

use crate::clock::now_unix_millis;
use crate::evidence::lifecycle::{LifecycleEvent, LifecycleEventType};
use crate::evidence::record::EvidenceRecord;
use crate::text::push_dec;

verus! {

/// The observable content of one emitted step event, mirrored alongside
/// its serialized record so that contracts can speak of it.
#[derive(Clone, Debug)]
pub struct StepEvent {
    /// The step the event belongs to.
    pub step_id: String,
    /// The terminal status, `completed` or `failed`.
    pub status: String,
    /// The error-type tag, when one applies.
    pub error_type: Option<String>,
}

/// The evidence writer of one run: its identity, its evidence directory,
/// and the records appended so far, in order.
#[derive(Debug)]
pub struct EvidenceWriter {
    /// The run this writer records.
    pub run_id: String,
    /// The evidence root directory path.
    pub root_dir: String,
    /// The records appended so far, oldest first. Append-only: every
    /// emission pushes one record at the end and disturbs nothing.
    pub records: Vec<EvidenceRecord>,
    /// The step events emitted so far, in emission order: the structured
    /// mirror of the step records.
    pub step_log: Vec<StepEvent>,
    /// The run-complete event once emitted: its status and error-type tag.
    pub completion: Option<(String, Option<String>)>,
}

impl EvidenceWriter {
    /// The status of the emitted run completion, by its characters.
    pub open spec fn spec_completion_status(&self) -> Option<Seq<char>> {
        match self.completion {
            Some(c) => Some(c.0@),
            None => None,
        }
    }

    /// The error-type tag of the emitted run completion, by its characters.
    pub open spec fn spec_completion_error_type(&self) -> Option<Seq<char>> {
        match self.completion {
            Some(c) => match c.1 {
                Some(e) => Some(e@),
                None => None,
            },
            None => None,
        }
    }
}

/// Whether a step event carries a terminal status.
pub open spec fn spec_step_terminal(e: StepEvent) -> bool {
    e.status@ == "completed"@ || e.status@ == "failed"@
}

impl EvidenceWriter {
    /// A writer for a run, rooted under `<base>/.ralph/evidence`.
    pub fn try_new(base_dir: &str, run_id: String) -> (r: Result<EvidenceWriter, String>)
        ensures
            r matches Ok(w) ==> w.run_id == run_id && w.records@.len() == 0 && w.step_log@.len()
                == 0 && w.completion is None,
    {
        let mut root = String::from_str(base_dir);
        root.append("/.ralph/evidence");
        Ok(EvidenceWriter {
            run_id,
            root_dir: root,
            records: Vec::new(),
            step_log: Vec::new(),
            completion: None,
        })
    }

    /// The run this writer records.
    pub fn run_id(&self) -> (r: &String)
        ensures
            r == self.run_id,
    {
        &self.run_id
    }

    /// The evidence root directory path.
    pub fn root_dir(&self) -> (r: &String)
        ensures
            r == self.root_dir,
    {
        &self.root_dir
    }

    /// Append a lifecycle event; the log grows by exactly that record at
    /// the end, and the returned line is its serialized form.
    fn write_event(&mut self, event: LifecycleEvent) -> (r: String)
        ensures
            final(self).step_log == old(self).step_log,
            final(self).completion == old(self).completion,
            final(self).records@.len() == old(self).records@.len() + 1,
            final(self).records@.drop_last() == old(self).records@,
            final(self).records@.last().kind@ == "lifecycle"@,
            final(self).records@.last().run_id == old(self).run_id,
            final(self).records@.last().payload_json@ == spec_lifecycle_payload(event),
            r@ == crate::evidence::record::spec_record_line(final(self).records@.last()),
            final(self).run_id == old(self).run_id,
            final(self).root_dir == old(self).root_dir,
    {
        let payload = lifecycle_payload_json(&event);
        let record = EvidenceRecord::new(
            self.run_id.clone(),
            String::from_str("lifecycle"),
            payload,
        );
        let line = record.to_json_line();
        self.records.push(record);
        proof {
            assert(self.records@.drop_last() =~= old(self).records@);
            reveal_strlit("lifecycle");
        }
        line
    }

    /// Emit the run-start event; the record log grows by exactly one
    /// record whose payload is the run-start lifecycle shape, and the
    /// step log and completion are untouched.
    pub fn emit_run_start(&mut self) -> (r: String)
        ensures
            final(self).records@.len() == old(self).records@.len() + 1,
            final(self).records@.drop_last() == old(self).records@,
            final(self).run_id == old(self).run_id,
            final(self).step_log == old(self).step_log,
            final(self).completion == old(self).completion,
            exists|e: LifecycleEvent|
                {
                    &&& final(self).records@.last().payload_json@ == #[trigger] spec_lifecycle_payload(e)
                    &&& e.schema_version@ == "v1"@
                    &&& e.event_type == LifecycleEventType::RunStart
                    &&& e.run_id@ == old(self).run_id@
                    &&& e.step_id@ == "run"@
                    &&& e.status is None
                    &&& e.error_type is None
                    &&& e.error_message is None
                },
    {
        let event = LifecycleEvent::new(
            LifecycleEventType::RunStart,
            self.run_id.clone(),
            String::from_str("run"),
        );
        let line = self.write_event(event);
        proof {
            reveal_strlit("run");
        }
        line
    }

    /// Emit one step's terminal event: the record log grows by exactly one
    /// record whose payload is the step lifecycle shape for these
    /// arguments, and the step log by exactly the event's step id, status
    /// and error-type tag; the completion is untouched.
    pub fn emit_step(
        &mut self,
        step_id: String,
        status: String,
        error_type: Option<String>,
        error_message: Option<String>,
    ) -> (r: String)
        ensures
            final(self).records@.len() == old(self).records@.len() + 1,
            final(self).records@.drop_last() == old(self).records@,
            final(self).run_id == old(self).run_id,
            final(self).completion == old(self).completion,
            final(self).step_log@.len() == old(self).step_log@.len() + 1,
            final(self).step_log@.drop_last() == old(self).step_log@,
            final(self).step_log@.last().step_id@ == step_id@,
            final(self).step_log@.last().status@ == status@,
            ({
                let logged = final(self).step_log@.last().error_type;
                match error_type {
                    Some(e) => logged matches Some(l) && l@ == e@,
                    None => logged is None,
                }
            }),
            exists|e: LifecycleEvent|
                {
                    &&& final(self).records@.last().payload_json@ == #[trigger] spec_lifecycle_payload(e)
                    &&& e.schema_version@ == "v1"@
                    &&& e.event_type == LifecycleEventType::Step
                    &&& e.run_id@ == old(self).run_id@
                    &&& e.step_id@ == step_id@
                    &&& (e.status matches Some(s) && s@ == status@)
                    &&& (match error_type {
                        Some(x) => e.error_type matches Some(y) && y@ == x@,
                        None => e.error_type is None,
                    })
                    &&& (match error_message {
                        Some(x) => e.error_message matches Some(y) && y@ == x@,
                        None => e.error_message is None,
                    })
                },
    {
        let mirror = StepEvent {
            step_id: step_id.clone(),
            status: status.clone(),
            error_type: match &error_type {
                Some(e) => Some(e.clone()),
                None => None,
            },
        };
        self.step_log.push(mirror);
        proof {
            assert(self.step_log@.drop_last() =~= old(self).step_log@);
        }
        let mut event = LifecycleEvent::new(LifecycleEventType::Step, self.run_id.clone(), step_id);
        event.status = Some(status);
        event.error_type = error_type;
        event.error_message = error_message;
        let line = self.write_event(event);
        line
    }

    /// Emit the run-complete event: the record log grows by exactly one
    /// record whose payload is the run-complete lifecycle shape for these
    /// arguments, the completion is set to the event's status and
    /// error-type tag, and the step log is untouched.
    pub fn emit_run_complete(
        &mut self,
        status: String,
        error_type: Option<String>,
        error_message: Option<String>,
    ) -> (r: String)
        ensures
            final(self).records@.len() == old(self).records@.len() + 1,
            final(self).records@.drop_last() == old(self).records@,
            final(self).run_id == old(self).run_id,
            final(self).step_log == old(self).step_log,
            final(self).spec_completion_status() == Some(status@),
            ({
                let logged = final(self).spec_completion_error_type();
                match error_type {
                    Some(e) => logged == Some(e@),
                    None => logged is None,
                }
            }),
            exists|e: LifecycleEvent|
                {
                    &&& final(self).records@.last().payload_json@ == #[trigger] spec_lifecycle_payload(e)
                    &&& e.schema_version@ == "v1"@
                    &&& e.event_type == LifecycleEventType::RunComplete
                    &&& e.run_id@ == old(self).run_id@
                    &&& e.step_id@ == "run"@
                    &&& (e.status matches Some(s) && s@ == status@)
                    &&& (match error_type {
                        Some(x) => e.error_type matches Some(y) && y@ == x@,
                        None => e.error_type is None,
                    })
                    &&& (match error_message {
                        Some(x) => e.error_message matches Some(y) && y@ == x@,
                        None => e.error_message is None,
                    })
                },
    {
        let mirror: (String, Option<String>) = (
            status.clone(),
            match &error_type {
                Some(e) => Some(e.clone()),
                None => None,
            },
        );
        self.completion = Some(mirror);
        let mut event = LifecycleEvent::new(
            LifecycleEventType::RunComplete,
            self.run_id.clone(),
            String::from_str("run"),
        );
        event.status = Some(status);
        event.error_type = error_type;
        event.error_message = error_message;
        let line = self.write_event(event);
        proof {
            reveal_strlit("run");
        }
        line
    }
}

/// The characters of a lifecycle event's JSON payload: the fixed fields
/// in order, then `status`, `error_type` and `error_message` each present
/// exactly when set, omitted when `None`.
pub open spec fn spec_lifecycle_payload(e: LifecycleEvent) -> Seq<char> {
    "{\"schema_version\":"@
        + crate::evidence::record::json_string_chars(e.schema_version@) + ",\"event_type\":"@
        + crate::evidence::record::json_string_chars(
        crate::evidence::lifecycle::spec_event_label(e.event_type),
    ) + ",\"timestamp\":"@ + crate::evidence::record::json_string_chars(e.timestamp@)
        + ",\"run_id\":"@ + crate::evidence::record::json_string_chars(e.run_id@)
        + ",\"step_id\":"@ + crate::evidence::record::json_string_chars(e.step_id@) + (
    match e.status {
        Some(s) => ",\"status\":"@ + crate::evidence::record::json_string_chars(s@),
        None => Seq::<char>::empty(),
    }) + (match e.error_type {
        Some(s) => ",\"error_type\":"@ + crate::evidence::record::json_string_chars(s@),
        None => Seq::<char>::empty(),
    }) + (match e.error_message {
        Some(s) => ",\"error_message\":"@ + crate::evidence::record::json_string_chars(s@),
        None => Seq::<char>::empty(),
    }) + "}"@
}

/// The JSON rendering of a lifecycle event payload.
pub fn lifecycle_payload_json(event: &LifecycleEvent) -> (r: String)
    ensures
        r@ == spec_lifecycle_payload(*event),
{
    let mut out = String::from_str("{\"schema_version\":");
    crate::evidence::record::push_json_string(&mut out, event.schema_version.as_str());
    out.append(",\"event_type\":");
    crate::evidence::record::push_json_string(&mut out, event.event_type.label());
    out.append(",\"timestamp\":");
    crate::evidence::record::push_json_string(&mut out, event.timestamp.as_str());
    out.append(",\"run_id\":");
    crate::evidence::record::push_json_string(&mut out, event.run_id.as_str());
    out.append(",\"step_id\":");
    crate::evidence::record::push_json_string(&mut out, event.step_id.as_str());
    if let Some(status) = &event.status {
        out.append(",\"status\":");
        crate::evidence::record::push_json_string(&mut out, status.as_str());
    }
    if let Some(error_type) = &event.error_type {
        out.append(",\"error_type\":");
        crate::evidence::record::push_json_string(&mut out, error_type.as_str());
    }
    if let Some(error_message) = &event.error_message {
        out.append(",\"error_message\":");
        crate::evidence::record::push_json_string(&mut out, error_message.as_str());
    }
    out.append("}");
    proof {
        assert(out@ =~= spec_lifecycle_payload(*event));
    }
    out
}

/// A run id of the form `run-<unix millis>-<pid>`.
pub fn generate_run_id_from(unix_ms: u64, pid: u64) -> (r: String)
    ensures
        r@ == "run-"@ + crate::text::dec_chars(unix_ms as int) + "-"@ + crate::text::dec_chars(
            pid as int,
        ),
{
    let mut id = String::from_str("run-");
    push_dec(&mut id, unix_ms);
    id.append("-");
    push_dec(&mut id, pid);
    proof {
        assert(id@ =~= "run-"@ + crate::text::dec_chars(unix_ms as int) + "-"@
            + crate::text::dec_chars(pid as int));
    }
    id
}

/// A fresh run id from the wall clock and the caller's process id.
pub fn generate_run_id(pid: u64) -> (r: String)
{
    generate_run_id_from(now_unix_millis(), pid)
}

} // verus!
