use ralph_core::collections::StringMap;
use ralph_core::duration::DurationMs;
use ralph_core::evidence::labels::ErrorCategory;
use ralph_core::parallel::config::ParallelRunnerConfig;
use ralph_core::parallel::conflicts::{detect_preexecution_conflicts, filter_conflicting_stories};
use ralph_core::parallel::reconcile::{ReconciliationIssue, ReconciliationResult};
use ralph_core::parallel::scheduler::{ParallelRunner, StoryOutcome};
use ralph_core::parallel::state::ParallelExecutionState;
use ralph_core::parallel::story::StoryNode;

#[test]
fn test_parallel_runner_config_default_circuit_breaker_threshold() {
    let config = ParallelRunnerConfig::default();
    assert_eq!(config.circuit_breaker_threshold, 5);
}

#[test]
fn test_parallel_runner_config_custom_circuit_breaker_threshold() {
    let config = ParallelRunnerConfig {
        circuit_breaker_threshold: 3,
        ..Default::default()
    };
    assert_eq!(config.circuit_breaker_threshold, 3);
}

#[test]
fn test_parallel_runner_config_circuit_breaker_threshold_zero() {
    let config = ParallelRunnerConfig {
        circuit_breaker_threshold: 0,
        ..Default::default()
    };
    assert_eq!(config.circuit_breaker_threshold, 0);
}

#[test]
fn test_circuit_breaker_cumulative_failures_threshold() {
    let circuit_breaker_threshold: u32 = 5;
    let mut cumulative_failures: u32 = 0;

    for _ in 0..4 {
        cumulative_failures += 1;
        assert!(
            cumulative_failures < circuit_breaker_threshold,
            "Should not trigger circuit breaker yet"
        );
    }
    assert_eq!(cumulative_failures, 4);

    cumulative_failures += 1;
    assert!(
        cumulative_failures >= circuit_breaker_threshold,
        "Should trigger circuit breaker at 5th failure"
    );
}

#[test]
fn test_circuit_breaker_cumulative_failures_across_batches() {
    let threshold: u32 = 5;
    let mut cumulative: u32 = 0;

    cumulative += 2;
    assert!(cumulative < threshold);

    cumulative += 1;
    assert!(cumulative < threshold);

    cumulative += 2;
    assert!(cumulative >= threshold);
    assert_eq!(cumulative, 5);
}

#[test]
fn test_circuit_breaker_does_not_reset_on_success() {
    let threshold: u32 = 5;
    let mut cumulative: u32 = 0;

    cumulative += 2;
    cumulative += 0;
    cumulative += 3;
    assert!(cumulative >= threshold);
}

#[test]
fn test_non_transient_failure_quality_gate() {
    let success = false;
    let is_transient = false;
    let should_count = !success && !is_transient;
    assert!(should_count, "Quality gate failures should count");
}

#[test]
fn test_transient_failure_does_not_count() {
    let success = false;
    let is_transient = true;
    let should_count = !success && !is_transient;
    assert!(!should_count, "Transient failures should not count");
}

#[test]
fn test_success_does_not_count() {
    let success = true;
    let is_transient = false;
    let should_count = !success && !is_transient;
    assert!(!should_count, "Successes should not count");
}

#[test]
fn test_batch_failure_counting_logic() {
    let results: Vec<(String, bool, u32, bool)> = vec![
        (String::from("US-001"), true, 1, false),
        (String::from("US-002"), false, 3, false),
        (String::from("US-003"), false, 1, true),
        (String::from("US-004"), false, 2, false),
    ];

    let batch_non_transient_failures =
        ralph_core::parallel::scheduler::count_batch_failures(&results);

    assert_eq!(batch_non_transient_failures, 2);
}

#[test]
fn test_batch_timeout_counts_as_non_transient() {
    let threshold: u32 = 5;
    let mut cumulative: u32 = 0;

    cumulative += 2;

    let timed_out_count = 3;
    cumulative += timed_out_count;

    assert!(cumulative >= threshold);
}

#[test]
fn test_execution_state_acquire_locks() {
    let mut state = ParallelExecutionState::new();

    let acquired = state.acquire_locks("US-001", &vec![String::from("src/a.rs")]);
    assert!(acquired);

    let acquired = state.acquire_locks("US-001", &vec![String::from("src/a.rs")]);
    assert!(acquired);

    let acquired = state.acquire_locks("US-002", &vec![String::from("src/a.rs")]);
    assert!(!acquired);

    let acquired = state.acquire_locks("US-002", &vec![String::from("src/b.rs")]);
    assert!(acquired);
}

#[test]
fn test_execution_state_release_locks() {
    let mut state = ParallelExecutionState::new();

    state.acquire_locks("US-001", &vec![String::from("src/a.rs"), String::from("src/b.rs")]);
    assert_eq!(state.locked_files.len(), 2);

    state.release_locks("US-001");
    assert!(state.locked_files.is_empty());
}

#[test]
fn test_execution_state_track_in_flight() {
    let mut state = ParallelExecutionState::new();

    state.in_flight.insert(String::from("US-001"));
    state.in_flight.insert(String::from("US-002"));
    assert_eq!(state.in_flight.len(), 2);
    assert!(state.in_flight.contains("US-001"));

    state.in_flight.remove("US-001");
    assert!(!state.in_flight.contains("US-001"));
    assert_eq!(state.in_flight.len(), 1);
}

#[test]
fn test_execution_state_track_failures() {
    let mut state = ParallelExecutionState::new();

    state
        .failed
        .insert(String::from("US-001"), String::from("Quality gate failed"));
    state
        .failed
        .insert(String::from("US-002"), String::from("Timeout"));

    assert_eq!(state.failed.len(), 2);
    assert_eq!(state.failed.get("US-001").unwrap(), "Quality gate failed");
}

fn story(id: &str, priority: u32, passes: bool, files: &[&str], deps: &[&str]) -> StoryNode {
    StoryNode {
        id: String::from(id),
        priority,
        passes,
        target_files: files.iter().map(|f| String::from(*f)).collect(),
        depends_on: deps.iter().map(|d| String::from(*d)).collect(),
    }
}

#[test]
fn test_detect_preexecution_conflicts_no_overlap() {
    let stories = vec![
        story("US-001", 1, false, &["src/a.rs"], &[]),
        story("US-002", 2, false, &["src/b.rs"], &[]),
    ];

    let conflicts = detect_preexecution_conflicts(&stories);
    assert!(conflicts.is_empty());
}

#[test]
fn test_detect_preexecution_conflicts_with_overlap() {
    let stories = vec![
        story("US-001", 1, false, &["src/shared.rs"], &[]),
        story("US-002", 2, false, &["src/shared.rs"], &[]),
    ];

    let conflicts = detect_preexecution_conflicts(&stories);
    assert_eq!(conflicts.len(), 1);
    assert_eq!(conflicts[0], (String::from("US-002"), String::from("US-001")));
}

#[test]
fn test_filter_conflicting_stories() {
    let stories = vec![
        story("US-001", 1, false, &["src/shared.rs"], &[]),
        story("US-002", 2, false, &["src/shared.rs"], &[]),
        story("US-003", 3, false, &["src/other.rs"], &[]),
    ];

    let (filtered, conflicts) = filter_conflicting_stories(stories);

    assert_eq!(filtered.len(), 2);
    assert!(filtered.iter().any(|s| s.id == "US-001"));
    assert!(filtered.iter().any(|s| s.id == "US-003"));
    assert!(!filtered.iter().any(|s| s.id == "US-002"));

    assert_eq!(conflicts.len(), 1);
}

fn runner(config: ParallelRunnerConfig) -> ParallelRunner {
    ParallelRunner::new(config, String::from("/tmp/work"), String::from("run-1-1"))
}

fn events_text(writer: &ralph_core::evidence::writer::EvidenceWriter) -> String {
    let mut all = String::new();
    for record in writer.records.iter() {
        all.push_str(&record.payload_json);
        all.push('\n');
    }
    all
}

#[test]
fn all_pass_fast_path() {
    // Story set [{A, passes}, {B, passes}]: the run succeeds at once with
    // no iterations, and the evidence holds a run start and a successful
    // run completion but no step events.
    let stories = vec![
        story("A", 1, true, &[], &[]),
        story("B", 2, true, &[], &[]),
    ];
    let outcomes: StringMap<StoryOutcome> = StringMap::new();
    let r = runner(ParallelRunnerConfig::default());
    let (result, writer, _metrics) = r.run(&stories, &outcomes, &vec![]);

    assert!(result.all_passed);
    assert_eq!(result.stories_passed, 2);
    assert_eq!(result.total_stories, 2);
    assert_eq!(result.total_iterations, 0);
    assert!(result.error.is_none());

    let text = events_text(&writer);
    assert!(text.contains("run_start"));
    assert!(text.contains("run_complete"));
    assert!(text.contains("\"status\":\"success\""));
    assert!(!text.contains("\"event_type\":\"step\""));
}

#[test]
fn three_independent_parallel_passes() {
    // Three stories with distinct target files under a concurrency cap of
    // three: all dispatch, all pass, and the run succeeds.
    let stories = vec![
        story("A", 1, false, &["src/a.rs"], &[]),
        story("B", 2, false, &["src/b.rs"], &[]),
        story("C", 3, false, &["src/c.rs"], &[]),
    ];
    let mut outcomes: StringMap<StoryOutcome> = StringMap::new();
    outcomes.insert(String::from("A"), StoryOutcome::Success { iterations: 1 });
    outcomes.insert(String::from("B"), StoryOutcome::Success { iterations: 1 });
    outcomes.insert(String::from("C"), StoryOutcome::Success { iterations: 1 });
    let config = ParallelRunnerConfig {
        max_concurrency: 3,
        ..Default::default()
    };
    let (result, writer, _metrics) = runner(config).run(&stories, &outcomes, &vec![]);

    assert!(result.all_passed);
    assert_eq!(result.stories_passed, 3);
    assert_eq!(result.total_iterations, 3);
    let text = events_text(&writer);
    assert!(text.contains("\"step_id\":\"A\""));
    assert!(text.contains("\"step_id\":\"B\""));
    assert!(text.contains("\"step_id\":\"C\""));
    assert!(text.contains("\"status\":\"success\""));
}

#[test]
fn file_conflict_deferral() {
    // Two ready stories share a target file: the lower-priority one is
    // deferred for the turn, dispatches after the winner finishes, and the
    // run still succeeds.
    let stories = vec![
        story("A", 1, false, &["src/shared.rs"], &[]),
        story("B", 2, false, &["src/shared.rs"], &[]),
    ];
    let mut outcomes: StringMap<StoryOutcome> = StringMap::new();
    outcomes.insert(String::from("A"), StoryOutcome::Success { iterations: 1 });
    outcomes.insert(String::from("B"), StoryOutcome::Success { iterations: 1 });
    let (result, writer, _metrics) = runner(ParallelRunnerConfig::default()).run(
        &stories,
        &outcomes,
        &vec![],
    );

    assert!(result.all_passed);
    assert_eq!(result.stories_passed, 2);
    let text = events_text(&writer);
    // The winner's completion is recorded before the deferred story's.
    let a_pos = text.find("\"step_id\":\"A\"").unwrap();
    let b_pos = text.find("\"step_id\":\"B\"").unwrap();
    assert!(a_pos < b_pos);
}

#[test]
fn circuit_breaker_trip_at_threshold_two() {
    // Five stories all failing their gates under a threshold of two: the
    // run ends after the first batch whose cumulative non-transient
    // failures reach two, with the resume hint in the error.
    let ids = ["A", "B", "C", "D", "E"];
    let mut stories = Vec::new();
    let mut outcomes: StringMap<StoryOutcome> = StringMap::new();
    for (i, id) in ids.iter().enumerate() {
        stories.push(story(id, (i + 1) as u32, false, &[], &[]));
        outcomes.insert(
            String::from(*id),
            StoryOutcome::GateFailure {
                iterations: 1,
                error: String::from("gates failed"),
            },
        );
    }
    let config = ParallelRunnerConfig {
        max_concurrency: 2,
        circuit_breaker_threshold: 2,
        ..Default::default()
    };
    let (result, writer, _metrics) = runner(config).run(&stories, &outcomes, &vec![]);

    assert!(!result.all_passed);
    let err = result.error.unwrap();
    assert!(err.contains("Circuit breaker triggered"));
    assert!(err.contains("Resume with"));
    let text = events_text(&writer);
    assert!(text.contains("circuit_breaker"));
    // Only the first batch of two ran before the breaker tripped.
    assert!(!text.contains("\"step_id\":\"E\""));
}

#[test]
fn batch_timeout_fails_story_and_frees_locks() {
    // One story whose executor never returns: it ends failed with the
    // batch-timeout tag, and its file locks are free again afterwards.
    let stories = vec![story("A", 1, false, &["src/a.rs"], &[])];
    let mut outcomes: StringMap<StoryOutcome> = StringMap::new();
    outcomes.insert(String::from("A"), StoryOutcome::NeverReturns);
    let config = ParallelRunnerConfig {
        batch_timeout: DurationMs::from_millis(100),
        ..Default::default()
    };
    let (result, writer, _metrics) = runner(config).run(&stories, &outcomes, &vec![]);

    assert!(!result.all_passed);
    let text = events_text(&writer);
    assert!(text.contains("batch_timeout"));
    assert!(text.contains("Batch timed out after 100ms"));
}

#[test]
fn lock_round_trip_restores_map() {
    // Acquiring locks for a story and releasing that story returns the
    // lock map to its prior state.
    let mut state = ParallelExecutionState::new();
    assert!(state.acquire_locks("OTHER", &vec![String::from("src/z.rs")]));

    let files = vec![String::from("src/a.rs"), String::from("src/b.rs")];
    assert!(state.acquire_locks("US-001", &files));
    assert_eq!(state.locked_files.len(), 3);

    state.release_locks("US-001");
    assert_eq!(state.locked_files.len(), 1);
    assert!(state.locked_files.get("src/z.rs").is_some());
    assert!(state.locked_files.get("src/a.rs").is_none());
    assert!(state.locked_files.get("src/b.rs").is_none());
}

#[test]
fn acquire_locks_is_atomic() {
    // When one of the wanted files is taken, no lock at all is acquired.
    let mut state = ParallelExecutionState::new();
    assert!(state.acquire_locks("OTHER", &vec![String::from("src/b.rs")]));

    let files = vec![String::from("src/a.rs"), String::from("src/b.rs")];
    assert!(!state.acquire_locks("US-001", &files));
    assert!(state.locked_files.get("src/a.rs").is_none());
    assert_eq!(state.locked_files.len(), 1);
}

#[test]
fn dependency_order_is_respected() {
    // B depends on A: B dispatches only after A completes.
    let stories = vec![
        story("A", 1, false, &["src/a.rs"], &[]),
        story("B", 2, false, &["src/b.rs"], &["A"]),
    ];
    let mut outcomes: StringMap<StoryOutcome> = StringMap::new();
    outcomes.insert(String::from("A"), StoryOutcome::Success { iterations: 2 });
    outcomes.insert(String::from("B"), StoryOutcome::Success { iterations: 3 });
    let (result, writer, _metrics) = runner(ParallelRunnerConfig::default()).run(
        &stories,
        &outcomes,
        &vec![],
    );

    assert!(result.all_passed);
    assert_eq!(result.total_iterations, 5);
    let text = events_text(&writer);
    let a_pos = text.find("\"step_id\":\"A\"").unwrap();
    let b_pos = text.find("\"step_id\":\"B\"").unwrap();
    assert!(a_pos < b_pos);
}

#[test]
fn cyclic_dependencies_are_fatal() {
    let stories = vec![
        story("A", 1, false, &[], &["B"]),
        story("B", 2, false, &[], &["A"]),
    ];
    let outcomes: StringMap<StoryOutcome> = StringMap::new();
    let (result, writer, _metrics) = runner(ParallelRunnerConfig::default()).run(
        &stories,
        &outcomes,
        &vec![],
    );

    assert!(!result.all_passed);
    assert!(result.error.unwrap().contains("Invalid dependency graph"));
    let text = events_text(&writer);
    assert!(text.contains("\"error_type\":\"fatal\""));
}

#[test]
fn transient_errors_do_not_trip_breaker() {
    // A transient executor error fails the story but never counts toward
    // the circuit breaker.
    let stories = vec![story("A", 1, false, &[], &[])];
    let mut outcomes: StringMap<StoryOutcome> = StringMap::new();
    outcomes.insert(
        String::from("A"),
        StoryOutcome::ExecError {
            category: ErrorCategory::Transient,
            message: String::from("connection reset"),
        },
    );
    let config = ParallelRunnerConfig {
        circuit_breaker_threshold: 1,
        ..Default::default()
    };
    let (result, writer, _metrics) = runner(config).run(&stories, &outcomes, &vec![]);

    assert!(!result.all_passed);
    let err = result.error.unwrap();
    assert!(!err.contains("Circuit breaker"));
    let text = events_text(&writer);
    assert!(text.contains("\"error_type\":\"transient\""));
}

#[test]
fn reconciliation_clean_twice_is_idempotent() {
    // A clean workspace reconciles clean after every batch: two clean
    // verdicts in a row change nothing about the run's success.
    let stories = vec![
        story("A", 1, false, &["src/a.rs"], &[]),
        story("B", 2, false, &["src/b.rs"], &["A"]),
    ];
    let mut outcomes: StringMap<StoryOutcome> = StringMap::new();
    outcomes.insert(String::from("A"), StoryOutcome::Success { iterations: 1 });
    outcomes.insert(String::from("B"), StoryOutcome::Success { iterations: 1 });
    let verdicts = vec![ReconciliationResult::Clean, ReconciliationResult::Clean];
    let (result, _writer, _metrics) = runner(ParallelRunnerConfig::default()).run(
        &stories,
        &outcomes,
        &verdicts,
    );
    assert!(result.all_passed);
}

#[test]
fn reconciliation_issues_retry_sequentially() {
    // Issues after the first batch demote the affected story to a
    // sequential retry; a clean verdict afterwards lets the run succeed.
    let stories = vec![story("A", 1, false, &["src/a.rs"], &[])];
    let mut outcomes: StringMap<StoryOutcome> = StringMap::new();
    outcomes.insert(String::from("A"), StoryOutcome::Success { iterations: 1 });
    let verdicts = vec![
        ReconciliationResult::IssuesFound(vec![ReconciliationIssue::GitConflict {
            affected_files: vec![String::from("src/a.rs")],
        }]),
        ReconciliationResult::Clean,
    ];
    let (result, _writer, _metrics) = runner(ParallelRunnerConfig::default()).run(
        &stories,
        &outcomes,
        &verdicts,
    );
    assert!(result.all_passed);
    assert_eq!(result.total_iterations, 2);
}

#[test]
fn reconciliation_failure_without_fallback() {
    let stories = vec![story("A", 1, false, &["src/a.rs"], &[])];
    let mut outcomes: StringMap<StoryOutcome> = StringMap::new();
    outcomes.insert(String::from("A"), StoryOutcome::Success { iterations: 1 });
    let verdicts = vec![ReconciliationResult::IssuesFound(vec![
        ReconciliationIssue::ImportDuplicate,
    ])];
    let config = ParallelRunnerConfig {
        fallback_to_sequential: false,
        ..Default::default()
    };
    let (result, writer, _metrics) = runner(config).run(&stories, &outcomes, &verdicts);
    assert!(!result.all_passed);
    assert!(result.error.unwrap().contains("fallback disabled"));
    let text = events_text(&writer);
    assert!(text.contains("reconciliation_failed"));
}

#[test]
fn unique_terminal_event_per_story() {
    // One dispatch attempt per story yields exactly one terminal step
    // event — completed or failed — whatever the outcome kind.
    let stories = vec![
        story("A", 1, false, &["src/a.rs"], &[]),
        story("B", 2, false, &["src/b.rs"], &[]),
        story("C", 3, false, &["src/c.rs"], &[]),
    ];
    let mut outcomes: StringMap<StoryOutcome> = StringMap::new();
    outcomes.insert(String::from("A"), StoryOutcome::Success { iterations: 1 });
    outcomes.insert(
        String::from("B"),
        StoryOutcome::GateFailure {
            iterations: 2,
            error: String::from("gates failed"),
        },
    );
    outcomes.insert(
        String::from("C"),
        StoryOutcome::ExecError {
            category: ErrorCategory::Transient,
            message: String::from("flaky network"),
        },
    );
    let (result, writer, _metrics) = runner(ParallelRunnerConfig::default()).run(
        &stories,
        &outcomes,
        &vec![],
    );
    assert!(!result.all_passed);

    for id in ["A", "B", "C"] {
        let needle = format!("\"step_id\":\"{}\"", id);
        let count = writer
            .records
            .iter()
            .filter(|r| r.payload_json.contains(&needle))
            .count();
        assert_eq!(count, 1, "story {} should have exactly one terminal event", id);
    }
    // Terminal statuses only.
    for record in writer.records.iter() {
        if record.payload_json.contains("\"event_type\":\"step\"") {
            assert!(
                record.payload_json.contains("\"status\":\"completed\"")
                    || record.payload_json.contains("\"status\":\"failed\"")
            );
        }
    }
}
