use ralph_core::evidence::config::EvidenceStoreConfig;
use ralph_core::evidence::export::{determine_run_status, RunStatus};
use ralph_core::evidence::labels::{error_category_label, ErrorCategory};
use ralph_core::evidence::record::{EvidenceRecord, EvidenceRunMetadata};
use ralph_core::evidence::store::{runs_to_delete, EvidenceError, EvidenceStore};
use ralph_core::evidence::writer::{generate_run_id_from, EvidenceWriter};
use ralph_core::metrics::RunMetricsCollector;

#[test]
fn test_error_category_labels() {
    assert_eq!(error_category_label(&ErrorCategory::Transient), "transient");
    assert_eq!(error_category_label(&ErrorCategory::UsageLimit), "usage_limit");
    assert_eq!(error_category_label(&ErrorCategory::Fatal), "fatal");
    assert_eq!(error_category_label(&ErrorCategory::Timeout), "timeout");
}

#[test]
fn test_generate_run_id_shape() {
    let id = generate_run_id_from(1700000000123, 4242);
    assert_eq!(id, "run-1700000000123-4242");
}

#[test]
fn test_store_layout() {
    let store = EvidenceStore::new("/work", EvidenceStoreConfig::new(30));
    assert_eq!(store.root_dir(), "/work/.ralph/evidence");
    assert_eq!(store.run_dir("run-1-1"), "/work/.ralph/evidence/runs/run-1-1");
    assert_eq!(store.retention_days, 30);
}

#[test]
fn test_retention_deletes_expired_runs() {
    // Thirty days of retention: a run 45 days old goes, a fresh one stays.
    let day_ms: u64 = 86_400_000;
    let now: u64 = 100 * day_ms;
    let runs = vec![
        (String::from("run-old"), now - 45 * day_ms),
        (String::from("run-new"), now - 1 * day_ms),
    ];
    let doomed = runs_to_delete(&runs, now, 30);
    assert_eq!(doomed.len(), 1);
    assert_eq!(doomed[0], "run-old");
}

#[test]
fn test_retention_keeps_runs_at_cutoff() {
    let day_ms: u64 = 86_400_000;
    let now: u64 = 100 * day_ms;
    let runs = vec![(String::from("run-edge"), now - 30 * day_ms)];
    let doomed = runs_to_delete(&runs, now, 30);
    assert!(doomed.is_empty());
}

#[test]
fn test_retention_disabled() {
    let runs = vec![(String::from("run-ancient"), 0)];
    let doomed = runs_to_delete(&runs, u64::MAX / 2, 0);
    assert!(doomed.is_empty());
}

#[test]
fn test_metadata_record_counts_monotonically() {
    let mut meta = EvidenceRunMetadata::new(String::from("run-1"), 1000);
    assert_eq!(meta.record_count, 0);
    assert_eq!(meta.created_at_ms, 1000);
    meta.record(2000);
    meta.record(3000);
    assert_eq!(meta.record_count, 2);
    assert_eq!(meta.created_at_ms, 1000);
    assert_eq!(meta.updated_at_ms, 3000);
}

#[test]
fn test_writer_appends_one_record_per_event() {
    let mut writer = EvidenceWriter::try_new("/work", String::from("run-9")).unwrap();
    assert_eq!(writer.records.len(), 0);
    writer.emit_run_start();
    assert_eq!(writer.records.len(), 1);
    let first_payload = writer.records[0].payload_json.clone();
    writer.emit_step(
        String::from("A"),
        String::from("completed"),
        None,
        None,
    );
    writer.emit_run_complete(String::from("success"), None, None);
    assert_eq!(writer.records.len(), 3);
    // The earlier record is untouched by later appends.
    assert_eq!(writer.records[0].payload_json, first_payload);
    assert!(writer.records[0].payload_json.contains("run_start"));
    assert!(writer.records[1].payload_json.contains("\"step_id\":\"A\""));
    assert!(writer.records[2].payload_json.contains("run_complete"));
}

#[test]
fn test_record_lines_parse_back() {
    // Every appended line is JSON-parseable back into the record's fields.
    let mut writer = EvidenceWriter::try_new("/work", String::from("run-7")).unwrap();
    let line = writer.emit_step(
        String::from("story \"quoted\"\nline"),
        String::from("failed"),
        Some(String::from("quality_gates_failed")),
        Some(String::from("message with \\ and \"")),
    );
    let value: serde_json::Value = serde_json::from_str(&line).expect("line parses");
    assert_eq!(value["schema_version"], 1);
    assert_eq!(value["run_id"], "run-7");
    assert_eq!(value["kind"], "lifecycle");
    let payload = &value["payload"];
    assert_eq!(payload["schema_version"], "v1");
    assert_eq!(payload["event_type"], "step");
    assert_eq!(payload["step_id"], "story \"quoted\"\nline");
    assert_eq!(payload["status"], "failed");
    assert_eq!(payload["error_type"], "quality_gates_failed");
    assert_eq!(payload["error_message"], "message with \\ and \"");
}

#[test]
fn test_metadata_json_round_trip() {
    let meta = EvidenceRunMetadata::new(String::from("run-3"), 1_700_000_000_123);
    let json = meta.to_json();
    let value: serde_json::Value = serde_json::from_str(&json).expect("manifest parses");
    assert_eq!(value["schema_version"], 1);
    assert_eq!(value["run_id"], "run-3");
    assert_eq!(value["record_count"], 0);
}

#[test]
fn test_determine_run_status_success() {
    let mut writer = EvidenceWriter::try_new("/work", String::from("run-5")).unwrap();
    writer.emit_run_start();
    writer.emit_run_complete(String::from("success"), None, None);
    let status = determine_run_status(&writer.records, None);
    assert_eq!(status, RunStatus::Success);
}

#[test]
fn test_determine_run_status_failed() {
    let mut writer = EvidenceWriter::try_new("/work", String::from("run-5")).unwrap();
    writer.emit_run_start();
    writer.emit_run_complete(
        String::from("failed"),
        Some(String::from("circuit_breaker")),
        Some(String::from("tripped")),
    );
    let status = determine_run_status(&writer.records, None);
    assert_eq!(status, RunStatus::Failed);
}

#[test]
fn test_determine_run_status_incomplete_without_completion() {
    let mut writer = EvidenceWriter::try_new("/work", String::from("run-5")).unwrap();
    writer.emit_run_start();
    let status = determine_run_status(&writer.records, None);
    assert_eq!(status, RunStatus::Incomplete);
}

#[test]
fn test_determine_run_status_incomplete_by_metrics() {
    let mut writer = EvidenceWriter::try_new("/work", String::from("run-6")).unwrap();
    writer.emit_run_start();
    writer.emit_run_complete(String::from("success"), None, None);

    let mut collector = RunMetricsCollector::new(String::from("run-6"), 2);
    collector.record_evidence_step(String::from("step-1"));
    let metrics = collector.finish();

    let status = determine_run_status(&writer.records, Some(&metrics));
    assert_eq!(status, RunStatus::Incomplete);
}

#[test]
fn test_record_new_carries_fields() {
    let record = EvidenceRecord::new(
        String::from("run-8"),
        String::from("lifecycle"),
        String::from("{}"),
    );
    assert_eq!(record.schema_version, 1);
    assert_eq!(record.run_id, "run-8");
    assert_eq!(record.kind, "lifecycle");
    assert_eq!(record.payload_json, "{}");
}

#[test]
fn test_rfc3339_rendering() {
    let rendered = ralph_core::clock::rfc3339_millis_of(1_700_000_000_123);
    assert_eq!(rendered, "2023-11-14T22:13:20.123Z");
    let parsed = chrono::DateTime::parse_from_rfc3339(&rendered).expect("valid RFC 3339");
    assert_eq!(parsed.timestamp_millis(), 1_700_000_000_123);
}

#[test]
fn test_evidence_error_messages() {
    assert_eq!(
        EvidenceError::Io(String::from("disk full")).message(),
        "IO error: disk full"
    );
    assert_eq!(
        EvidenceError::Json(String::from("bad token")).message(),
        "JSON error: bad token"
    );
    assert_eq!(EvidenceError::InvalidRunId.message(), "Invalid run ID");
}
