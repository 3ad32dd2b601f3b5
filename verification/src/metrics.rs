//! Execution metrics: per-story and per-step timings, retries and
//! completeness, and their aggregation over a run.

use vstd::prelude::*;

use crate::clock::now_unix_millis;
use crate::collections::{StringMap, StringSet};
use crate::duration::DurationMs;
use crate::evidence::record::push_json_string;
use crate::text::push_dec;

verus! {

/// The category of an error met during story iteration.
#[derive(Clone, Copy, Debug, PartialEq, Eq, Structural)]
pub enum ErrorCategory {
    /// A lint failure.
    Lint,
    /// A type-check failure.
    TypeCheck,
    /// A test failure.
    Test,
    /// A formatting failure.
    Format,
    /// A security finding.
    Security,
    /// A coverage shortfall.
    Coverage,
}

impl ErrorCategory {
    /// The stable label of this category.
    pub fn as_str(&self) -> (r: &'static str)
        ensures
            *self == ErrorCategory::Lint ==> r@ == "lint"@,
            *self == ErrorCategory::Format ==> r@ == "format"@,
            *self == ErrorCategory::Test ==> r@ == "test"@,
    {
        match self {
            ErrorCategory::Lint => "lint",
            ErrorCategory::TypeCheck => "type_check",
            ErrorCategory::Test => "test",
            ErrorCategory::Format => "format",
            ErrorCategory::Security => "security",
            ErrorCategory::Coverage => "coverage",
        }
    }
}

/// Metrics for a single story execution.
#[derive(Clone, Debug)]
pub struct StoryMetrics {
    /// The story measured.
    pub story_id: String,
    /// Iterations used.
    pub iterations_used: u32,
    /// Iterations allowed.
    pub max_iterations: u32,
    /// Total execution duration.
    pub total_duration: DurationMs,
    /// Whether the story succeeded.
    pub success: bool,
    /// Gate durations by gate name.
    pub gate_durations: StringMap<DurationMs>,
    /// Error categories encountered.
    pub error_categories: Vec<ErrorCategory>,
    /// The final error message, when the story failed.
    pub final_error: Option<String>,
    /// When execution started, in Unix milliseconds.
    pub started_at_ms: u64,
    /// When execution completed, in Unix milliseconds.
    pub completed_at_ms: u64,
}

impl StoryMetrics {
    /// Fresh metrics for a story, stamped with the current time.
    pub fn new(story_id: String, max_iterations: u32) -> (r: Self)
        ensures
            r.story_id == story_id,
            r.iterations_used == 0,
            r.max_iterations == max_iterations,
            !r.success,
            r.total_duration.millis == 0,
            r.gate_durations.wf(),
            r.gate_durations.entries@.len() == 0,
            r.error_categories@.len() == 0,
            r.final_error is None,
    {
        let now = now_unix_millis();
        StoryMetrics {
            story_id,
            iterations_used: 0,
            max_iterations,
            total_duration: DurationMs { millis: 0 },
            success: false,
            gate_durations: StringMap::new(),
            error_categories: Vec::new(),
            final_error: None,
            started_at_ms: now,
            completed_at_ms: now,
        }
    }

    /// The mean gate duration, rounded down; zero without samples.
    pub fn average_gate_duration(&self) -> (r: DurationMs)
        ensures
            self.gate_durations.entries@.len() == 0 ==> r.millis == 0,
    {
        let n = self.gate_durations.len();
        if n == 0 {
            return DurationMs { millis: 0 };
        }
        let mut total: u128 = 0;
        let mut i: usize = 0;
        while i < n
            invariant
                i <= n,
                n == self.gate_durations.entries@.len(),
                total <= i as int * u64::MAX as int,
            decreases n - i,
        {
            total += self.gate_durations.at(i).1.millis as u128;
            proof {
                crate::text::lemma_u64_mul_fits_u128((i + 1) as u64, u64::MAX);
            }
            i += 1;
        }
        let avg: u128 = total / (n as u128);
        proof {
            crate::text::lemma_u64_mul_fits_u128(n as u64, u64::MAX);
        }
        if avg > u64::MAX as u128 {
            DurationMs { millis: u64::MAX }
        } else {
            DurationMs { millis: avg as u64 }
        }
    }

    /// Mark the story as completed with its outcome and duration.
    pub fn complete(&mut self, success: bool, duration: DurationMs)
        ensures
            final(self).success == success,
            final(self).total_duration == duration,
            final(self).story_id == old(self).story_id,
            final(self).iterations_used == old(self).iterations_used,
            final(self).max_iterations == old(self).max_iterations,
            final(self).gate_durations == old(self).gate_durations,
            final(self).error_categories == old(self).error_categories,
    {
        self.success = success;
        self.total_duration = duration;
        self.completed_at_ms = now_unix_millis();
    }
}

/// Metrics for a single step within a run.
#[derive(Clone, Debug)]
pub struct StepMetrics {
    /// The step measured, typically a story id.
    pub step_id: String,
    /// Attempts made.
    pub attempts: u32,
    /// Step duration.
    pub duration: DurationMs,
    /// Whether the step succeeded.
    pub success: bool,
    /// When the step started, in Unix milliseconds.
    pub started_at_ms: u64,
    /// When the step completed, in Unix milliseconds.
    pub completed_at_ms: u64,
    /// The error message, when the step failed.
    pub error: Option<String>,
}

impl StepMetrics {
    /// An observably equal copy of this step's metrics.
    pub fn duplicate(&self) -> (r: Self)
        ensures
            step_eq(r, *self),
    {
        StepMetrics {
            step_id: self.step_id.clone(),
            attempts: self.attempts,
            duration: self.duration,
            success: self.success,
            started_at_ms: self.started_at_ms,
            completed_at_ms: self.completed_at_ms,
            error: match &self.error {
                Some(e) => Some(e.clone()),
                None => None,
            },
        }
    }

    /// Fresh metrics for a step, stamped with the current time.
    pub fn new(step_id: String) -> (r: Self)
        ensures
            r.step_id == step_id,
            r.attempts == 0,
            r.duration.millis == 0,
            !r.success,
            r.error is None,
    {
        let now = now_unix_millis();
        StepMetrics {
            step_id,
            attempts: 0,
            duration: DurationMs { millis: 0 },
            success: false,
            started_at_ms: now,
            completed_at_ms: now,
            error: None,
        }
    }
}

/// Whether two step metrics agree in every observable field.
pub open spec fn step_eq(a: StepMetrics, b: StepMetrics) -> bool {
    a.step_id@ == b.step_id@ && a.attempts == b.attempts && a.duration == b.duration && a.success
        == b.success && a.started_at_ms == b.started_at_ms && a.completed_at_ms
        == b.completed_at_ms && (match (a.error, b.error) {
        (Some(x), Some(y)) => x@ == y@,
        (None, None) => true,
        _ => false,
    })
}

/// The number of successful entries among tracked steps.
pub open spec fn spec_success_count(entries: Seq<(String, StepMetrics)>) -> int
    decreases entries.len(),
{
    if entries.len() == 0 {
        0
    } else {
        spec_success_count(entries.drop_last()) + (if entries.last().1.success {
            1int
        } else {
            0int
        })
    }
}

/// The summed retries among tracked steps: attempts beyond the first.
pub open spec fn spec_retry_sum(entries: Seq<(String, StepMetrics)>) -> int
    decreases entries.len(),
{
    if entries.len() == 0 {
        0
    } else {
        spec_retry_sum(entries.drop_last()) + (if entries.last().1.attempts > 0 {
            entries.last().1.attempts - 1
        } else {
            0int
        })
    }
}

/// The aggregated metrics snapshot of a run.
#[derive(Clone, Debug)]
pub struct RunMetrics {
    /// The run measured.
    pub run_id: String,
    /// When the run started, in Unix milliseconds.
    pub started_at_ms: u64,
    /// When the run completed, in Unix milliseconds.
    pub completed_at_ms: u64,
    /// When the snapshot was recorded, in Unix milliseconds.
    pub recorded_at_ms: u64,
    /// Total run duration.
    pub run_duration: DurationMs,
    /// Steps the run expected.
    pub expected_steps: u32,
    /// Steps attempted.
    pub steps_attempted: u32,
    /// Steps completed successfully.
    pub steps_completed: u32,
    /// Step failures.
    pub failures: u32,
    /// Total retries across steps.
    pub retries: u32,
    /// Steps with evidence, as a bounded percentage of those expected.
    pub completeness_percent: u32,
    /// Detailed step metrics, in step order.
    pub steps: Vec<StepMetrics>,
}

/// The completeness of a run: `min(100, 100 * evidence / expected)`, and
/// full when no steps were expected.
pub open spec fn spec_completeness(evidence_steps: int, expected_steps: int) -> int {
    if expected_steps == 0 {
        100
    } else {
        let pct = evidence_steps * 100 / expected_steps;
        if pct <= 100 {
            pct
        } else {
            100
        }
    }
}

/// Compute the completeness percentage; it always lies in `[0, 100]`.
pub fn completeness_percent(evidence_steps: u64, expected_steps: u64) -> (r: u32)
    ensures
        r == spec_completeness(evidence_steps as int, expected_steps as int),
        r <= 100,
{
    if expected_steps == 0 {
        return 100;
    }
    proof {
        crate::text::lemma_u64_mul_fits_u128(evidence_steps, 100);
    }
    let pct: u128 = (evidence_steps as u128) * 100 / (expected_steps as u128);
    if pct > 100 {
        100
    } else {
        pct as u32
    }
}

/// The collector of one run's step metrics.
#[derive(Clone, Debug)]
pub struct RunMetricsCollector {
    /// The run measured.
    pub run_id: String,
    /// When collection started, in Unix milliseconds.
    pub started_at_ms: u64,
    /// Steps the run expects.
    pub expected_steps: usize,
    /// Step metrics by step id.
    pub steps: StringMap<StepMetrics>,
    /// Step ids with recorded evidence.
    pub evidence_steps: StringSet,
}

impl RunMetricsCollector {
    /// A fresh collector for a run.
    pub fn new(run_id: String, expected_steps: usize) -> (r: Self)
        ensures
            r.wf(),
            r.run_id == run_id,
            r.expected_steps == expected_steps,
            r.steps.entries@.len() == 0,
            r.evidence_steps.elems@.len() == 0,
    {
        RunMetricsCollector {
            run_id,
            started_at_ms: now_unix_millis(),
            expected_steps,
            steps: StringMap::new(),
            evidence_steps: StringSet::new(),
        }
    }

    /// Both parts well-formed.
    pub open spec fn wf(&self) -> bool {
        self.steps.wf() && self.evidence_steps.wf()
    }

    /// Replace the expected step count.
    pub fn set_expected_steps(&mut self, expected_steps: usize)
        ensures
            *final(self) == (RunMetricsCollector { expected_steps, ..*old(self) }),
    {
        self.expected_steps = expected_steps;
    }

    /// Record the start of a step; a step already known is kept.
    pub fn start_step(&mut self, step_id: String)
        requires
            old(self).wf(),
        ensures
            final(self).wf(),
            final(self).steps.spec_contains_key(step_id@),
            final(self).expected_steps == old(self).expected_steps,
            final(self).evidence_steps == old(self).evidence_steps,
            final(self).run_id == old(self).run_id,
    {
        if !self.steps.contains_key(step_id.as_str()) {
            let step = StepMetrics::new(step_id.clone());
            self.steps.insert(step_id, step);
        }
    }

    /// Record that evidence was captured for a step.
    pub fn record_evidence_step(&mut self, step_id: String)
        requires
            old(self).wf(),
        ensures
            final(self).wf(),
            final(self).evidence_steps.spec_contains(step_id@),
            final(self).steps == old(self).steps,
            final(self).expected_steps == old(self).expected_steps,
            final(self).run_id == old(self).run_id,
    {
        self.evidence_steps.insert(step_id);
    }

    /// Record the completion of a step with its outcome.
    pub fn complete_step(
        &mut self,
        step_id: &str,
        success: bool,
        attempts: u32,
        duration: DurationMs,
        error: Option<String>,
    )
        requires
            old(self).wf(),
        ensures
            final(self).wf(),
            final(self).steps.spec_contains_key(step_id@),
            ({
                let entry = final(self).steps.spec_get(step_id@).unwrap();
                entry.success == success && entry.attempts == attempts && entry.duration
                    == duration && entry.error == error && entry.step_id@ == step_id@
            }),
            forall|z: Seq<char>| z != step_id@ ==> #[trigger] final(self).steps.spec_get(z) == old(
                self,
            ).steps.spec_get(z),
            final(self).expected_steps == old(self).expected_steps,
            final(self).evidence_steps == old(self).evidence_steps,
            final(self).run_id == old(self).run_id,
    {
        // A step that was started keeps its start stamp.
        let started_at_ms: u64 = match self.steps.get(step_id) {
            Some(prev) => prev.started_at_ms,
            None => now_unix_millis(),
        };
        let mut entry = StepMetrics::new(String::from_str(step_id));
        entry.started_at_ms = started_at_ms;
        entry.attempts = attempts;
        entry.duration = duration;
        entry.success = success;
        entry.completed_at_ms = now_unix_millis();
        entry.error = error;
        self.steps.insert(String::from_str(step_id), entry);
    }

    /// Build the run metrics snapshot: attempted and completed counts,
    /// failures as their difference, summed retries, and completeness over
    /// the expected steps.
    pub fn finish(&self) -> (r: RunMetrics)
        requires
            self.wf(),
        ensures
            r.run_id == self.run_id,
            r.expected_steps == (if self.expected_steps <= u32::MAX {
                self.expected_steps as int
            } else {
                u32::MAX as int
            }),
            r.steps_attempted == (if self.steps.entries@.len() <= u32::MAX {
                self.steps.entries@.len() as int
            } else {
                u32::MAX as int
            }),
            r.completeness_percent == spec_completeness(
                self.evidence_steps.elems@.len() as int,
                (if self.expected_steps <= u32::MAX {
                    self.expected_steps as int
                } else {
                    u32::MAX as int
                }),
            ),
            r.completeness_percent <= 100,
            r.steps_completed <= r.steps_attempted,
            r.failures == r.steps_attempted - r.steps_completed,
            self.steps.entries@.len() <= u32::MAX ==> r.steps_completed == spec_success_count(
                self.steps.entries@,
            ),
            self.steps.entries@.len() <= u32::MAX ==> r.retries == (if spec_retry_sum(
                self.steps.entries@,
            ) <= u32::MAX {
                spec_retry_sum(self.steps.entries@)
            } else {
                u32::MAX as int
            }),
            r.steps@.len() == self.steps.entries@.len(),
            forall|j: int| 0 <= j < r.steps@.len() ==> step_eq(
                #[trigger] r.steps@[j],
                self.steps.entries@[j].1,
            ),
    {
        let completed_at = now_unix_millis();
        let n = self.steps.len();
        let attempted: u32 = if n <= u32::MAX as usize {
            n as u32
        } else {
            u32::MAX
        };
        let mut completed_count: u32 = 0;
        let mut retries: u64 = 0;
        let mut steps_out: Vec<StepMetrics> = Vec::new();
        let mut i: usize = 0;
        while i < n
            invariant
                i <= n,
                n == self.steps.entries@.len(),
                completed_count <= i,
                i <= u32::MAX as usize ==> completed_count <= i as u32,
                retries <= i as int * u32::MAX as int,
                n <= u32::MAX ==> completed_count == spec_success_count(
                    self.steps.entries@.subrange(0, i as int),
                ),
                n <= u32::MAX ==> retries == spec_retry_sum(
                    self.steps.entries@.subrange(0, i as int),
                ),
                steps_out@.len() == i,
                forall|j: int| 0 <= j < i ==> step_eq(
                    #[trigger] steps_out@[j],
                    self.steps.entries@[j].1,
                ),
            decreases n - i,
        {
            proof {
                assert(self.steps.entries@.subrange(0, i + 1).drop_last() =~= self.steps.entries@.subrange(
                    0,
                    i as int,
                ));
                assert(self.steps.entries@.subrange(0, i + 1).last() == self.steps.entries@[
                    i as int
                ]);
            }
            let step = &self.steps.at(i).1;
            if step.success && completed_count < u32::MAX {
                completed_count += 1;
            }
            let extra: u32 = if step.attempts > 0 {
                step.attempts - 1
            } else {
                0
            };
            proof {
                crate::text::lemma_u64_mul_fits_u128((i + 1) as u64, u32::MAX as u64);
            }
            if retries <= u64::MAX - extra as u64 {
                retries += extra as u64;
            }
            steps_out.push(step.duplicate());
            i += 1;
        }
        proof {
            assert(self.steps.entries@.subrange(0, n as int) =~= self.steps.entries@);
        }
        let completed_final: u32 = if completed_count <= attempted {
            completed_count
        } else {
            attempted
        };
        let expected: u32 = if self.expected_steps <= u32::MAX as usize {
            self.expected_steps as u32
        } else {
            u32::MAX
        };
        let run_duration_ms: u64 = if completed_at >= self.started_at_ms {
            completed_at - self.started_at_ms
        } else {
            0
        };
        let retries_u32: u32 = if retries <= u32::MAX as u64 {
            retries as u32
        } else {
            u32::MAX
        };
        RunMetrics {
            run_id: self.run_id.clone(),
            started_at_ms: self.started_at_ms,
            completed_at_ms: completed_at,
            recorded_at_ms: completed_at,
            run_duration: DurationMs { millis: run_duration_ms },
            expected_steps: expected,
            steps_attempted: attempted,
            steps_completed: completed_final,
            failures: attempted - completed_final,
            retries: retries_u32,
            completeness_percent: completeness_percent(
                self.evidence_steps.len() as u64,
                expected as u64,
            ),
            steps: steps_out,
        }
    }
}

/// The characters of a run metrics snapshot's JSON rendering: the fields
/// in a fixed order, the duration in milliseconds.
pub open spec fn spec_run_metrics_json(m: RunMetrics) -> Seq<char> {
    "{\"run_id\":"@ + crate::evidence::record::json_string_chars(m.run_id@)
        + ",\"run_duration_ms\":"@ + crate::text::dec_chars(m.run_duration.millis as int)
        + ",\"expected_steps\":"@ + crate::text::dec_chars(m.expected_steps as int)
        + ",\"steps_attempted\":"@ + crate::text::dec_chars(m.steps_attempted as int)
        + ",\"steps_completed\":"@ + crate::text::dec_chars(m.steps_completed as int)
        + ",\"failures\":"@ + crate::text::dec_chars(m.failures as int)
        + ",\"retries\":"@ + crate::text::dec_chars(m.retries as int)
        + ",\"completeness_percent\":"@ + crate::text::dec_chars(m.completeness_percent as int)
        + "}"@
}

/// The JSON rendering of a run metrics snapshot, as written to its file.
pub fn run_metrics_json(m: &RunMetrics) -> (r: String)
    ensures
        r@ == spec_run_metrics_json(*m),
{
    let mut out = String::from_str("{\"run_id\":");
    push_json_string(&mut out, m.run_id.as_str());
    out.append(",\"run_duration_ms\":");
    push_dec(&mut out, m.run_duration.millis);
    out.append(",\"expected_steps\":");
    push_dec(&mut out, m.expected_steps as u64);
    out.append(",\"steps_attempted\":");
    push_dec(&mut out, m.steps_attempted as u64);
    out.append(",\"steps_completed\":");
    push_dec(&mut out, m.steps_completed as u64);
    out.append(",\"failures\":");
    push_dec(&mut out, m.failures as u64);
    out.append(",\"retries\":");
    push_dec(&mut out, m.retries as u64);
    out.append(",\"completeness_percent\":");
    push_dec(&mut out, m.completeness_percent as u64);
    out.append("}");
    proof {
        assert(out@ =~= spec_run_metrics_json(*m));
    }
    out
}

/// The store path of run metrics snapshots under a base directory.
#[derive(Clone, Debug)]
pub struct RunMetricsStore {
    /// The directory snapshots are written to, `<base>/.ralph/runs`.
    pub runs_dir: String,
}

impl RunMetricsStore {
    /// The snapshot file path of one run.
    pub fn run_path(&self, run_id: &str) -> (r: String)
        ensures
            r@ == self.runs_dir@ + "/"@ + run_id@ + ".json"@,
    {
        let mut p = self.runs_dir.clone();
        p.append("/");
        p.append(run_id);
        p.append(".json");
        p
    }
}

/// Duration statistics for one quality gate.
#[derive(Clone, Copy, Debug, PartialEq, Eq, Structural)]
pub struct GateDurationStats {
    /// Number of samples.
    pub count: u32,
    /// Mean duration.
    pub mean: DurationMs,
    /// Minimum duration.
    pub min: DurationMs,
    /// Maximum duration.
    pub max: DurationMs,
    /// Sum of all samples.
    pub total: DurationMs,
}

impl Default for GateDurationStats {
    fn default() -> (r: Self)
        ensures
            r.count == 0,
            r.mean.millis == 0,
            r.min.millis == 0,
            r.max.millis == 0,
            r.total.millis == 0,
    {
        GateDurationStats {
            count: 0,
            mean: DurationMs { millis: 0 },
            min: DurationMs { millis: 0 },
            max: DurationMs { millis: 0 },
            total: DurationMs { millis: 0 },
        }
    }
}

impl GateDurationStats {
    /// Add one sample: the count grows, the total accumulates, the mean is
    /// the total over the count, and the extremes widen.
    pub fn add_sample(&mut self, duration: DurationMs)
        requires
            old(self).count < u32::MAX,
            old(self).total.millis + duration.millis <= u64::MAX,
        ensures
            final(self).count == old(self).count + 1,
            final(self).total.millis == old(self).total.millis + duration.millis,
            final(self).mean.millis == final(self).total.millis / (final(self).count as u64),
            old(self).count == 0 ==> final(self).min == duration && final(self).max == duration,
            old(self).count > 0 ==> final(self).min.millis == (if duration.millis < old(
                self,
            ).min.millis {
                duration.millis as int
            } else {
                old(self).min.millis as int
            }),
            old(self).count > 0 ==> final(self).max.millis == (if duration.millis > old(
                self,
            ).max.millis {
                duration.millis as int
            } else {
                old(self).max.millis as int
            }),
    {
        self.count = self.count + 1;
        self.total = DurationMs { millis: self.total.millis + duration.millis };
        self.mean = DurationMs { millis: self.total.millis / (self.count as u64) };
        if self.count == 1 {
            self.min = duration;
            self.max = duration;
        } else {
            if duration.millis < self.min.millis {
                self.min = duration;
            }
            if duration.millis > self.max.millis {
                self.max = duration;
            }
        }
    }
}

/// Aggregated metrics across completed stories.
#[derive(Clone, Debug)]
pub struct ExecutionMetrics {
    /// Mean iterations per story, in hundredths.
    pub avg_iterations_per_story_hundredths: u64,
    /// Throughput over wall time, in hundredths.
    pub parallelism_efficiency_hundredths: u64,
    /// Gate duration statistics by gate name.
    pub gate_durations: StringMap<GateDurationStats>,
    /// Error counts by category.
    pub error_frequency: Vec<(ErrorCategory, u32)>,
    /// Stories executed.
    pub total_stories: u32,
    /// Stories that succeeded.
    pub successful_stories: u32,
    /// Stories that failed.
    pub failed_stories: u32,
    /// Total execution time across stories.
    pub total_execution_time: DurationMs,
    /// Stories that passed on their first iteration, in percent of all.
    pub first_time_success_rate_percent: u32,
}

impl ExecutionMetrics {
    /// Aggregates over no stories at all.
    pub fn empty() -> (r: Self)
        ensures
            r.total_stories == 0,
            r.successful_stories == 0,
            r.failed_stories == 0,
    {
        ExecutionMetrics {
            avg_iterations_per_story_hundredths: 0,
            parallelism_efficiency_hundredths: 0,
            gate_durations: StringMap::new(),
            error_frequency: Vec::new(),
            total_stories: 0,
            successful_stories: 0,
            failed_stories: 0,
            total_execution_time: DurationMs { millis: 0 },
            first_time_success_rate_percent: 0,
        }
    }

    /// The success rate in whole percent; zero without stories.
    pub fn success_rate_percent(&self) -> (r: u32)
        ensures
            self.total_stories == 0 ==> r == 0,
            self.successful_stories <= self.total_stories ==> r <= 100,
    {
        if self.total_stories == 0 {
            return 0;
        }
        let pct: u64 = (self.successful_stories as u64) * 100 / (self.total_stories as u64);
        if pct > 100 {
            100
        } else {
            pct as u32
        }
    }

    /// The most frequent error category, if any was recorded.
    pub fn most_common_error(&self) -> (r: Option<ErrorCategory>)
        ensures
            r is Some <==> self.error_frequency@.len() > 0,
    {
        if self.error_frequency.len() == 0 {
            return None;
        }
        let mut best: usize = 0;
        let mut i: usize = 1;
        while i < self.error_frequency.len()
            invariant
                best < self.error_frequency@.len(),
                i <= self.error_frequency@.len(),
            decreases self.error_frequency@.len() - i,
        {
            if self.error_frequency[i].1 > self.error_frequency[best].1 {
                best = i;
            }
            i += 1;
        }
        Some(self.error_frequency[best].0)
    }

    /// Which gate has the largest mean duration, if any was recorded.
    pub fn slowest_gate(&self) -> (r: Option<&String>)
        ensures
            r is Some <==> self.gate_durations.entries@.len() > 0,
    {
        if self.gate_durations.len() == 0 {
            return None;
        }
        let mut best: usize = 0;
        let mut i: usize = 1;
        while i < self.gate_durations.len()
            invariant
                best < self.gate_durations.entries@.len(),
                i <= self.gate_durations.entries@.len(),
            decreases self.gate_durations.entries@.len() - i,
        {
            if self.gate_durations.at(i).1.mean.millis > self.gate_durations.at(best).1.mean.millis {
                best = i;
            }
            i += 1;
        }
        Some(&self.gate_durations.at(best).0)
    }
}

/// The number of successful stories among completed story metrics.
pub open spec fn spec_story_success_count(stories: Seq<StoryMetrics>) -> int
    decreases stories.len(),
{
    if stories.len() == 0 {
        0
    } else {
        spec_story_success_count(stories.drop_last()) + (if stories.last().success {
            1int
        } else {
            0int
        })
    }
}

/// Builder for tracking an execution session story by story.
#[derive(Clone, Debug)]
pub struct MetricsBuilder {
    /// The story currently tracked, if any.
    pub current_story: Option<StoryMetrics>,
    /// Completed story metrics, in completion order.
    pub completed_stories: Vec<StoryMetrics>,
    /// When parallel tracking started, in Unix milliseconds, if running.
    pub parallel_start_ms: Option<u64>,
    /// Wall-clock time of parallel execution.
    pub parallel_wall_time: DurationMs,
    /// Sum of individual story durations.
    pub parallel_sum_time: DurationMs,
}

impl MetricsBuilder {
    /// A fresh builder.
    pub fn new() -> (r: Self)
        ensures
            r.current_story is None,
            r.completed_stories@.len() == 0,
            r.parallel_start_ms is None,
            r.parallel_wall_time.millis == 0,
            r.parallel_sum_time.millis == 0,
    {
        MetricsBuilder {
            current_story: None,
            completed_stories: Vec::new(),
            parallel_start_ms: None,
            parallel_wall_time: DurationMs { millis: 0 },
            parallel_sum_time: DurationMs { millis: 0 },
        }
    }

    /// Start tracking a story.
    pub fn start_story(&mut self, story_id: String, max_iterations: u32)
        ensures
            final(self).current_story matches Some(s) && s.story_id == story_id
                && s.max_iterations == max_iterations && s.iterations_used == 0,
            final(self).completed_stories == old(self).completed_stories,
    {
        self.current_story = Some(StoryMetrics::new(story_id, max_iterations));
    }

    /// Record the current iteration number of the tracked story.
    pub fn record_iteration(&mut self, iteration: u32)
        ensures
            old(self).current_story matches Some(s) ==> final(self).current_story matches Some(t)
                && t.iterations_used == iteration && t.story_id == s.story_id,
            old(self).current_story is None ==> *final(self) == *old(self),
            final(self).completed_stories == old(self).completed_stories,
    {
        match &mut self.current_story {
            Some(story) => {
                story.iterations_used = iteration;
            },
            None => {},
        }
    }

    /// Record a gate duration for the tracked story.
    pub fn record_gate_duration(&mut self, gate_name: String, duration: DurationMs)
        requires
            old(self).current_story matches Some(s) ==> s.gate_durations.wf(),
        ensures
            final(self).completed_stories == old(self).completed_stories,
            old(self).current_story is None ==> *final(self) == *old(self),
    {
        match &mut self.current_story {
            Some(story) => {
                story.gate_durations.insert(gate_name, duration);
            },
            None => {},
        }
    }

    /// Record an error category for the tracked story.
    pub fn record_error(&mut self, category: ErrorCategory)
        ensures
            final(self).completed_stories == old(self).completed_stories,
            old(self).current_story is None ==> *final(self) == *old(self),
            old(self).current_story matches Some(s) ==> final(self).current_story matches Some(t)
                && t.error_categories@ == s.error_categories@.push(category),
    {
        match &mut self.current_story {
            Some(story) => {
                story.error_categories.push(category);
            },
            None => {},
        }
    }

    /// Complete the tracked story with its outcome; it moves to the
    /// completed list and its duration accumulates.
    pub fn complete_story(&mut self, success: bool, duration: DurationMs, error: Option<String>)
        ensures
            final(self).current_story is None,
            old(self).current_story is Some ==> final(self).completed_stories@.len() == old(
                self,
            ).completed_stories@.len() + 1,
            old(self).current_story is Some ==> final(self).completed_stories@.last().success
                == success,
            old(self).current_story is None ==> final(self).completed_stories == old(
                self,
            ).completed_stories,
    {
        let taken = self.current_story.take();
        match taken {
            Some(mut story) => {
                story.complete(success, duration);
                story.final_error = error;
                self.parallel_sum_time = self.parallel_sum_time.saturating_add(duration);
                self.completed_stories.push(story);
            },
            None => {},
        }
    }

    /// Start tracking parallel execution.
    pub fn start_parallel(&mut self)
        ensures
            final(self).parallel_start_ms is Some,
            final(self).completed_stories == old(self).completed_stories,
    {
        self.parallel_start_ms = Some(now_unix_millis());
    }

    /// End parallel execution tracking, fixing the wall time.
    pub fn end_parallel(&mut self)
        ensures
            final(self).parallel_start_ms is None,
            final(self).completed_stories == old(self).completed_stories,
    {
        let taken = self.parallel_start_ms.take();
        match taken {
            Some(start) => {
                let now = now_unix_millis();
                self.parallel_wall_time = DurationMs {
                    millis: if now >= start {
                        now - start
                    } else {
                        0
                    },
                };
            },
            None => {},
        }
    }

    /// Build the aggregated metrics over the completed stories.
    pub fn build(self) -> (r: ExecutionMetrics)
        ensures
            r.total_stories as int == (if self.completed_stories@.len() <= u32::MAX {
                self.completed_stories@.len() as int
            } else {
                u32::MAX as int
            }),
            r.successful_stories <= r.total_stories,
            r.failed_stories == r.total_stories - r.successful_stories,
            self.completed_stories@.len() <= u32::MAX ==> r.successful_stories
                == spec_story_success_count(self.completed_stories@),
    {
        let n = self.completed_stories.len();
        if n == 0 {
            return ExecutionMetrics::empty();
        }
        let total_stories: u32 = if n <= u32::MAX as usize {
            n as u32
        } else {
            u32::MAX
        };
        let mut successes: u32 = 0;
        let mut first_time: u64 = 0;
        let mut total_iterations: u64 = 0;
        let mut total_time = DurationMs { millis: 0 };
        let mut gate_durations: StringMap<GateDurationStats> = StringMap::new();
        let mut error_frequency: Vec<(ErrorCategory, u32)> = Vec::new();
        let mut i: usize = 0;
        while i < n
            invariant
                i <= n,
                n == self.completed_stories@.len(),
                successes <= i,
                first_time <= i as int,
                total_iterations <= i as int * u32::MAX as int,
                gate_durations.wf(),
                n <= u32::MAX ==> successes == spec_story_success_count(
                    self.completed_stories@.subrange(0, i as int),
                ),
            decreases n - i,
        {
            proof {
                assert(self.completed_stories@.subrange(0, i + 1).drop_last()
                    =~= self.completed_stories@.subrange(0, i as int));
                assert(self.completed_stories@.subrange(0, i + 1).last()
                    == self.completed_stories@[i as int]);
            }
            let story = &self.completed_stories[i];
            if story.success && successes < u32::MAX {
                successes += 1;
            }
            if story.success && story.iterations_used == 1 {
                first_time += 1;
            }
            proof {
                crate::text::lemma_u64_mul_fits_u128((i + 1) as u64, u32::MAX as u64);
            }
            if total_iterations <= u64::MAX - story.iterations_used as u64 {
                total_iterations += story.iterations_used as u64;
            }
            total_time = total_time.saturating_add(story.total_duration);
            let mut g: usize = 0;
            while g < story.gate_durations.len()
                invariant
                    g <= story.gate_durations.entries@.len(),
                    gate_durations.wf(),
                decreases story.gate_durations.entries@.len() - g,
            {
                let pair = story.gate_durations.at(g);
                let mut stats = match gate_durations.get(pair.0.as_str()) {
                    Some(s) => *s,
                    None => GateDurationStats::default(),
                };
                if stats.count < u32::MAX && stats.total.millis <= u64::MAX - pair.1.millis {
                    stats.add_sample(pair.1);
                    gate_durations.insert(pair.0.clone(), stats);
                }
                g += 1;
            }
            let mut e: usize = 0;
            while e < story.error_categories.len()
                invariant
                    e <= story.error_categories@.len(),
                    gate_durations.wf(),
                decreases story.error_categories@.len() - e,
            {
                let cat = story.error_categories[e];
                let mut found = false;
                let mut f: usize = 0;
                while f < error_frequency.len()
                    invariant
                        f <= error_frequency@.len(),
                    decreases error_frequency@.len() - f,
                {
                    if error_frequency[f].0 == cat {
                        let slot = &mut error_frequency[f];
                        if slot.1 < u32::MAX {
                            *slot = (cat, slot.1 + 1);
                        }
                        found = true;
                    }
                    f += 1;
                }
                if !found {
                    error_frequency.push((cat, 1));
                }
                e += 1;
            }
            i += 1;
        }
        proof {
            assert(self.completed_stories@.subrange(0, n as int) =~= self.completed_stories@);
        }
        let successes_final: u32 = if successes <= total_stories {
            successes
        } else {
            total_stories
        };
        let avg_hundredths: u64 = {
            proof {
                crate::text::lemma_u64_mul_fits_u128(total_iterations, 100);
            }
            let v: u128 = (total_iterations as u128) * 100 / (total_stories as u128);
            if v > u64::MAX as u128 {
                u64::MAX
            } else {
                v as u64
            }
        };
        let first_rate: u32 = {
            let v: u128 = (first_time as u128) * 100 / (total_stories as u128);
            if v > 100 {
                100
            } else {
                v as u32
            }
        };
        let efficiency: u64 = if self.parallel_wall_time.millis > 0 {
            proof {
                crate::text::lemma_u64_mul_fits_u128(self.parallel_sum_time.millis, 100);
            }
            let v: u128 = (self.parallel_sum_time.millis as u128) * 100
                / (self.parallel_wall_time.millis as u128);
            if v > u64::MAX as u128 {
                u64::MAX
            } else {
                v as u64
            }
        } else {
            100
        };
        ExecutionMetrics {
            avg_iterations_per_story_hundredths: avg_hundredths,
            parallelism_efficiency_hundredths: efficiency,
            gate_durations,
            error_frequency,
            total_stories,
            successful_stories: successes_final,
            failed_stories: total_stories - successes_final,
            total_execution_time: total_time,
            first_time_success_rate_percent: first_rate,
        }
    }
}

impl Default for MetricsBuilder {
    fn default() -> (r: Self)
        ensures
            r.current_story is None,
            r.completed_stories@.len() == 0,
    {
        Self::new()
    }
}

/// A collector wrapping a builder for use by a single supervising task;
/// sharing across tasks is synchronization done outside the library.
#[derive(Clone, Debug)]
pub struct MetricsCollector {
    /// The wrapped builder.
    pub inner: MetricsBuilder,
}

impl MetricsCollector {
    /// A fresh collector.
    pub fn new() -> (r: Self)
        ensures
            r.inner.current_story is None,
            r.inner.completed_stories@.len() == 0,
    {
        MetricsCollector { inner: MetricsBuilder::new() }
    }

    /// Start tracking a story.
    pub fn start_story(&mut self, story_id: String, max_iterations: u32)
        ensures
            final(self).inner.current_story is Some,
    {
        self.inner.start_story(story_id, max_iterations);
    }

    /// Record the current iteration number.
    pub fn record_iteration(&mut self, iteration: u32)
        ensures
            final(self).inner.completed_stories == old(self).inner.completed_stories,
    {
        self.inner.record_iteration(iteration);
    }

    /// Record a gate duration.
    pub fn record_gate_duration(&mut self, gate_name: String, duration: DurationMs)
        requires
            old(self).inner.current_story matches Some(s) ==> s.gate_durations.wf(),
        ensures
            final(self).inner.completed_stories == old(self).inner.completed_stories,
    {
        self.inner.record_gate_duration(gate_name, duration);
    }

    /// Record an error category.
    pub fn record_error(&mut self, category: ErrorCategory)
        ensures
            final(self).inner.completed_stories == old(self).inner.completed_stories,
    {
        self.inner.record_error(category);
    }

    /// Complete the tracked story.
    pub fn complete_story(&mut self, success: bool, duration: DurationMs, error: Option<String>)
        ensures
            final(self).inner.current_story is None,
    {
        self.inner.complete_story(success, duration, error);
    }

    /// Start tracking parallel execution.
    pub fn start_parallel(&mut self)
        ensures
            final(self).inner.parallel_start_ms is Some,
    {
        self.inner.start_parallel();
    }

    /// End parallel execution tracking.
    pub fn end_parallel(&mut self)
        ensures
            final(self).inner.parallel_start_ms is None,
    {
        self.inner.end_parallel();
    }

    /// Build the aggregated metrics over what was completed.
    pub fn build(&self) -> (r: ExecutionMetrics)
        ensures
            r.successful_stories <= r.total_stories,
    {
        let snapshot = self.inner.clone();
        snapshot.build()
    }
}

impl Default for MetricsCollector {
    fn default() -> (r: Self)
        ensures
            r.inner.current_story is None,
    {
        Self::new()
    }
}

} // verus!
