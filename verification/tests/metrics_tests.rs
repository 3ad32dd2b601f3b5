use ralph_core::duration::DurationMs;
use ralph_core::metrics::{completeness_percent, ErrorCategory, GateDurationStats, MetricsBuilder,
    RunMetricsCollector, StoryMetrics};

#[test]
fn test_story_metrics_new() {
    let metrics = StoryMetrics::new(String::from("US-001"), 10);
    assert_eq!(metrics.story_id, "US-001");
    assert_eq!(metrics.max_iterations, 10);
    assert_eq!(metrics.iterations_used, 0);
    assert!(!metrics.success);
}

#[test]
fn test_story_metrics_complete() {
    let mut metrics = StoryMetrics::new(String::from("US-001"), 10);
    metrics.complete(true, DurationMs::from_secs(60));
    assert!(metrics.success);
    assert_eq!(metrics.total_duration, DurationMs::from_secs(60));
}

#[test]
fn test_gate_duration_stats_add_sample() {
    let mut stats = GateDurationStats::default();
    stats.add_sample(DurationMs::from_secs(1));
    assert_eq!(stats.count, 1);
    assert_eq!(stats.mean, DurationMs::from_secs(1));
    assert_eq!(stats.min, DurationMs::from_secs(1));
    assert_eq!(stats.max, DurationMs::from_secs(1));

    stats.add_sample(DurationMs::from_secs(3));
    assert_eq!(stats.count, 2);
    assert_eq!(stats.mean, DurationMs::from_secs(2));
    assert_eq!(stats.min, DurationMs::from_secs(1));
    assert_eq!(stats.max, DurationMs::from_secs(3));
}

#[test]
fn test_metrics_builder_new() {
    let builder = MetricsBuilder::new();
    assert!(builder.current_story.is_none());
    assert!(builder.completed_stories.is_empty());
}

#[test]
fn test_metrics_builder_track_story() {
    let mut builder = MetricsBuilder::new();
    builder.start_story(String::from("US-001"), 10);
    assert!(builder.current_story.is_some());

    builder.record_iteration(1);
    builder.record_gate_duration(String::from("lint"), DurationMs::from_secs(5));
    builder.record_error(ErrorCategory::Lint);
    builder.complete_story(true, DurationMs::from_secs(30), None);

    assert!(builder.current_story.is_none());
    assert_eq!(builder.completed_stories.len(), 1);
    assert!(builder.completed_stories[0].success);
}

#[test]
fn test_metrics_builder_build() {
    let mut builder = MetricsBuilder::new();

    builder.start_story(String::from("US-001"), 10);
    builder.record_iteration(1);
    builder.complete_story(true, DurationMs::from_secs(30), None);

    builder.start_story(String::from("US-002"), 10);
    builder.record_iteration(3);
    builder.complete_story(false, DurationMs::from_secs(60), Some(String::from("Failed")));

    let metrics = builder.build();
    assert_eq!(metrics.total_stories, 2);
    assert_eq!(metrics.successful_stories, 1);
    assert_eq!(metrics.failed_stories, 1);
    assert_eq!(metrics.avg_iterations_per_story_hundredths, 200);
    assert_eq!(metrics.success_rate_percent(), 50);
}

#[test]
fn test_metrics_builder_first_time_success() {
    let mut builder = MetricsBuilder::new();

    builder.start_story(String::from("US-001"), 10);
    builder.record_iteration(1);
    builder.complete_story(true, DurationMs::from_secs(30), None);

    builder.start_story(String::from("US-002"), 10);
    builder.record_iteration(2);
    builder.complete_story(true, DurationMs::from_secs(60), None);

    let metrics = builder.build();
    assert_eq!(metrics.first_time_success_rate_percent, 50);
}

#[test]
fn test_execution_metrics_most_common_error() {
    let mut builder = MetricsBuilder::new();
    builder.start_story(String::from("US-001"), 10);
    for _ in 0..5 {
        builder.record_error(ErrorCategory::Lint);
    }
    for _ in 0..3 {
        builder.record_error(ErrorCategory::Format);
    }
    builder.complete_story(false, DurationMs::from_secs(10), None);
    let metrics = builder.build();
    assert_eq!(metrics.most_common_error(), Some(ErrorCategory::Lint));
}

#[test]
fn test_run_metrics_collector_counts() {
    let mut collector = RunMetricsCollector::new(String::from("run-1"), 2);
    collector.start_step(String::from("step-1"));
    collector.complete_step("step-1", true, 3, DurationMs::from_secs(1), None);
    collector.start_step(String::from("step-2"));
    collector.complete_step(
        "step-2",
        false,
        1,
        DurationMs::from_secs(2),
        Some(String::from("boom")),
    );
    collector.record_evidence_step(String::from("step-1"));
    collector.record_evidence_step(String::from("step-2"));

    let metrics = collector.finish();
    assert_eq!(metrics.run_id, "run-1");
    assert_eq!(metrics.expected_steps, 2);
    assert_eq!(metrics.steps_attempted, 2);
    assert_eq!(metrics.steps_completed, 1);
    assert_eq!(metrics.failures, 1);
    assert_eq!(metrics.retries, 2);
    assert_eq!(metrics.completeness_percent, 100);
}

#[test]
fn test_completeness_bounds() {
    // Completeness is min(100, 100 * evidence / expected), and full when
    // nothing was expected.
    assert_eq!(completeness_percent(0, 0), 100);
    assert_eq!(completeness_percent(0, 4), 0);
    assert_eq!(completeness_percent(1, 4), 25);
    assert_eq!(completeness_percent(3, 4), 75);
    assert_eq!(completeness_percent(4, 4), 100);
    assert_eq!(completeness_percent(9, 4), 100);
    assert_eq!(completeness_percent(1, 3), 33);
    for evidence in 0..10u64 {
        for expected in 0..10u64 {
            let pct = completeness_percent(evidence, expected);
            assert!(pct <= 100);
        }
    }
}

#[test]
fn test_partial_completeness_incomplete_run() {
    let mut collector = RunMetricsCollector::new(String::from("run-2"), 2);
    collector.start_step(String::from("step-1"));
    collector.complete_step("step-1", true, 1, DurationMs::from_secs(1), None);
    collector.record_evidence_step(String::from("step-1"));

    let metrics = collector.finish();
    assert_eq!(metrics.completeness_percent, 50);
}
