//! The parallel scheduler run loop.
//!
//! The loop here is deterministic: story executor outcomes are handed in
//! as values, and reconciliation verdicts as a list consumed batch by
//! batch. Real executors run outside the library and produce exactly
//! these values; the decisions — readiness, conflict deferral,
//! backpressure, dispatch under locks, failure counting, circuit
//! breaking, sequential fallback — all happen here.

use vstd::prelude::*;

use crate::collections::{StringMap, StringSet};
use crate::evidence::labels::{error_category_label, ErrorCategory};
use crate::evidence::writer::EvidenceWriter;
use crate::metrics::RunMetricsCollector;
use crate::parallel::config::{ParallelRunnerConfig, QueuePolicy};
use crate::parallel::conflicts::filter_conflicting_stories;
use crate::parallel::graph::DependencyGraph;
use crate::parallel::reconcile::{get_affected_stories, ReconciliationIssue, ReconciliationResult};
use crate::parallel::state::ParallelExecutionState;
use crate::parallel::story::StoryNode;
use crate::text::push_dec;

verus! {

/// The outcome of one run.
#[derive(Clone, Debug)]
pub struct RunResult {
    /// Whether every story passed.
    pub all_passed: bool,
    /// How many stories passed.
    pub stories_passed: usize,
    /// How many stories the set holds.
    pub total_stories: usize,
    /// Iterations used across all executions.
    pub total_iterations: u32,
    /// The run-level error, when the run failed.
    pub error: Option<String>,
}

/// What one story execution comes to.
#[derive(Clone, Debug)]
pub enum StoryOutcome {
    /// The executor returned success.
    Success { iterations: u32 },
    /// The executor returned failure: quality gates did not pass.
    GateFailure { iterations: u32, error: String },
    /// The executor raised a typed error.
    ExecError { category: ErrorCategory, message: String },
    /// The executor never returns within the batch timeout.
    NeverReturns,
}

/// Whether one batch entry counts toward the circuit breaker: a failure
/// that is not transient.
pub open spec fn spec_counts_as_failure(success: bool, is_transient: bool) -> bool {
    !success && !is_transient
}

/// Count the non-transient failures of one batch's results, each given as
/// `(story id, success, iterations, is_transient)`.
pub fn count_batch_failures(results: &Vec<(String, bool, u32, bool)>) -> (r: u32)
    requires
        results@.len() <= u32::MAX,
    ensures
        r <= results@.len(),
        r == spec_count_failures(results@),
{
    let mut count: u32 = 0;
    let mut i: usize = 0;
    while i < results.len()
        invariant
            i <= results@.len() <= u32::MAX,
            count == spec_count_failures(results@.subrange(0, i as int)),
            count <= i,
        decreases results@.len() - i,
    {
        proof {
            assert(results@.subrange(0, i + 1).drop_last() =~= results@.subrange(0, i as int));
        }
        if !results[i].1 && !results[i].3 {
            count += 1;
        }
        i += 1;
    }
    proof {
        assert(results@.subrange(0, results@.len() as int) =~= results@);
    }
    count
}

/// The number of non-transient failures among batch results.
pub open spec fn spec_count_failures(results: Seq<(String, bool, u32, bool)>) -> int
    decreases results.len(),
{
    if results.len() == 0 {
        0
    } else {
        spec_count_failures(results.drop_last()) + (if spec_counts_as_failure(
            results.last().1,
            results.last().3,
        ) {
            1int
        } else {
            0int
        })
    }
}

/// Dispatch one batch from the queue: stories are taken from the front,
/// their file locks acquired all or nothing, and those whose locks are
/// held elsewhere go back to the queue tail. Never more than
/// `max_concurrency` stories are dispatched in one batch, so at no moment
/// do more than `max_concurrency` stories execute concurrently.
pub fn dispatch_batch(
    state: &mut ParallelExecutionState,
    pending: &mut Vec<StoryNode>,
    queued_ids: &mut StringSet,
    max_concurrency: u32,
) -> (batch: Vec<StoryNode>)
    requires
        old(state).wf(),
        old(queued_ids).wf(),
    ensures
        final(state).wf(),
        final(queued_ids).wf(),
        batch@.len() <= max_concurrency,
        final(state).completed == old(state).completed,
        final(state).failed == old(state).failed,
        final(pending)@.len() + batch@.len() == old(pending)@.len(),
        final(pending)@.to_multiset().add(batch@.to_multiset()) == old(
            pending,
        )@.to_multiset(),
        forall|k: int| 0 <= k < batch@.len() ==> final(state).in_flight.spec_contains(
            (#[trigger] batch@[k]).id@,
        ),
        old(state).locked_files.entries@.len() == 0 && max_concurrency >= 1 && old(
            pending,
        )@.len() > 0 ==> batch@.len() >= 1,
{
    let ghost pending0 = pending@;
    let mut batch: Vec<StoryNode> = Vec::new();
    let mut permits: u32 = max_concurrency;
    proof {
        batch@.to_multiset_ensures();
        assert(batch@.to_multiset().len() == 0);
        assert(pending@.to_multiset().add(batch@.to_multiset()) =~= pending0.to_multiset());
    }
    while permits > 0 && pending.len() > 0
        invariant
            state.wf(),
            queued_ids.wf(),
            batch@.len() + permits <= max_concurrency,
            state.completed == old(state).completed,
            state.failed == old(state).failed,
            pending0 == old(pending)@,
            pending@.len() + batch@.len() == pending0.len(),
            pending@.to_multiset().add(batch@.to_multiset()) == pending0.to_multiset(),
            forall|k: int| 0 <= k < batch@.len() ==> state.in_flight.spec_contains(
                (#[trigger] batch@[k]).id@,
            ),
            batch@.len() == 0 ==> state.locked_files == old(state).locked_files,
            permits < max_concurrency && old(state).locked_files.entries@.len() == 0
                ==> batch@.len() >= 1,
        decreases permits,
    {
        let ghost pre_pending = pending@;
        let ghost pre_batch = batch@;
        let story = pending.remove(0);
        proof {
            assert(story == pre_pending[0]);
            pre_pending.to_multiset_ensures();
            assert(pending@ =~= pre_pending.remove(0));
            assert(pending@.to_multiset() =~= pre_pending.to_multiset().remove(pre_pending[0]));
        }
        queued_ids.remove(story.id.as_str());
        if state.acquire_locks(story.id.as_str(), &story.target_files) {
            state.in_flight.insert(story.id.clone());
            batch.push(story);
            proof {
                pre_batch.to_multiset_ensures();
                assert(batch@ =~= pre_batch.push(story));
                assert(batch@.to_multiset() =~= pre_batch.to_multiset().insert(story));
                assert(pre_pending.to_multiset().count(pre_pending[0]) >= 1) by {
                    pre_pending.to_multiset_ensures();
                    assert(pre_pending.contains(pre_pending[0]));
                }
                assert(pending@.to_multiset().add(batch@.to_multiset())
                    =~= pending0.to_multiset());
                assert forall|k: int| 0 <= k < batch@.len() implies state.in_flight.spec_contains(
                    (#[trigger] batch@[k]).id@,
                ) by {
                    if k < batch@.len() - 1 {
                        assert(batch@[k] == pre_batch[k]);
                    }
                }
            }
        } else {
            proof {
                if batch@.len() == 0 && old(state).locked_files.entries@.len() == 0 {
                    assert forall|j: int|
                        0 <= j < story.target_files@.len() implies (crate::parallel::state::spec_owner(
                        state.locked_files,
                        (#[trigger] story.target_files@[j])@,
                    ) is None) by {
                        assert(state.locked_files.spec_get(story.target_files@[j]@) is None);
                    }
                    assert(state.spec_can_acquire(story.id@, story.target_files@));
                    assert(false);
                }
            }
            queued_ids.insert(story.id.clone());
            pending.push(story);
            proof {
                let mid = pre_pending.remove(0);
                mid.to_multiset_ensures();
                assert(pending@ =~= mid.push(story));
                assert(pending@.to_multiset() =~= mid.to_multiset().insert(story));
                assert(pre_pending.to_multiset().count(pre_pending[0]) >= 1) by {
                    pre_pending.to_multiset_ensures();
                    assert(pre_pending.contains(pre_pending[0]));
                }
                assert(pending@.to_multiset().add(batch@.to_multiset())
                    =~= pending0.to_multiset());
            }
        }
        permits -= 1;
    }
    batch
}

/// The parallel runner: configuration and run identity.
#[derive(Clone, Debug)]
pub struct ParallelRunner {
    /// Parallel execution settings.
    pub config: ParallelRunnerConfig,
    /// The working directory evidence and metrics live under.
    pub working_dir: String,
    /// The identity of this run.
    pub run_id: String,
}

/// A story set on the all-passing fast path: distinct ids, every story
/// already passing, no declared dependencies, and no overlapping target
/// files. Such a run succeeds at once, with no iterations and no step
/// events.
pub open spec fn spec_fast_path_set(ss: Seq<StoryNode>) -> bool {
    &&& (forall|a: int, b: int| 0 <= a < b < ss.len() ==> (#[trigger] ss[a]).id@ != (
    #[trigger] ss[b]).id@)
    &&& (forall|i: int| 0 <= i < ss.len() ==> (#[trigger] ss[i]).passes)
    &&& crate::parallel::graph::spec_no_deps(ss)
    &&& crate::parallel::graph::spec_no_overlaps(ss)
}

/// Whether some logged step event carries the `failed` status.
pub open spec fn spec_has_failed_event(log: Seq<crate::evidence::writer::StepEvent>) -> bool {
    exists|k: int| 0 <= k < log.len() && (#[trigger] log[k]).status@ == "failed"@
}

/// Appending one step event keeps every failed-status event, and a
/// `failed` event at the end establishes one.
proof fn lemma_failed_event_push(
    pre: Seq<crate::evidence::writer::StepEvent>,
    post: Seq<crate::evidence::writer::StepEvent>,
)
    requires
        post.len() == pre.len() + 1,
        post.drop_last() == pre,
    ensures
        spec_has_failed_event(pre) ==> spec_has_failed_event(post),
        post.last().status@ == "failed"@ ==> spec_has_failed_event(post),
{
    if spec_has_failed_event(pre) {
        let k = choose|k: int| 0 <= k < pre.len() && (#[trigger] pre[k]).status@ == "failed"@;
        assert(post[k] == pre[k]);
        assert(spec_has_failed_event(post));
    }
    if post.last().status@ == "failed"@ {
        assert(post[post.len() - 1].status@ == "failed"@);
        assert(spec_has_failed_event(post));
    }
}

/// Whether the circuit breaker trips: the run ends with a breaker error
/// exactly when the cumulative non-transient failures reach the threshold
/// after some batch.
pub fn breaker_trips(cumulative_failures: u32, threshold: u32) -> (r: bool)
    ensures
        r == (cumulative_failures >= threshold),
{
    cumulative_failures >= threshold
}

/// The error text of a circuit-breaker exit for `c` failures against
/// threshold `t`, resume hint included.
pub open spec fn spec_breaker_error(c: int, t: int) -> Seq<char> {
    "Circuit breaker triggered: "@ + crate::text::dec_chars(c)
        + " failures across batches (threshold: "@ + crate::text::dec_chars(t) + ")"@
        + ". Checkpoint saved. Resume with: ralph --resume"@
}

/// The run-status words are distinct.
proof fn lemma_status_words()
    ensures
        "failed"@ != "success"@,
{
    reveal_strlit("failed");
    reveal_strlit("success");
    assert("failed"@.len() == 6);
    assert("success"@.len() == 7);
}

/// The run-level error tags are pairwise distinct.
proof fn lemma_error_tags()
    ensures
        "fatal"@ != "circuit_breaker"@,
        "failed_steps"@ != "circuit_breaker"@,
        "reconciliation_failed"@ != "circuit_breaker"@,
        "fatal"@ != "reconciliation_failed"@,
        "failed_steps"@ != "reconciliation_failed"@,
        "fatal"@ != "failed_steps"@,
{
    reveal_strlit("fatal");
    reveal_strlit("failed_steps");
    reveal_strlit("reconciliation_failed");
    reveal_strlit("circuit_breaker");
    assert("fatal"@.len() == 5);
    assert("failed_steps"@.len() == 12);
    assert("reconciliation_failed"@.len() == 21);
    assert("circuit_breaker"@.len() == 15);
}

/// Add with saturation at `u32::MAX`.
fn sat_add_u32(a: u32, b: u32) -> (r: u32)
    ensures
        r == if a + b <= u32::MAX {
            a + b
        } else {
            u32::MAX as int
        },
{
    if a <= u32::MAX - b {
        a + b
    } else {
        u32::MAX
    }
}

impl ParallelRunner {
    /// A runner over the given configuration, rooted in a working
    /// directory, under a run identity.
    pub fn new(config: ParallelRunnerConfig, working_dir: String, run_id: String) -> (r: Self)
        ensures
            r.config == config,
            r.working_dir == working_dir,
            r.run_id == run_id,
    {
        ParallelRunner { config, working_dir, run_id }
    }

    /// Run the story set to its fixed point.
    ///
    /// `outcomes` gives each story's execution outcome;
    /// `reconciliations` the verdicts consumed after each batch, with
    /// `Clean` assumed once exhausted. The result, the evidence log and
    /// the metrics collector are returned together. When every story
    /// already passes, the run succeeds at once with no iterations and no
    /// step events.
    pub fn run(
        &self,
        stories: &Vec<StoryNode>,
        outcomes: &StringMap<StoryOutcome>,
        reconciliations: &Vec<ReconciliationResult>,
    ) -> (r: (RunResult, EvidenceWriter, RunMetricsCollector))
        requires
            outcomes.wf(),
            stories@.len() <= u32::MAX,
            self.config.max_concurrency >= 1,
            self.config.queue_capacity >= 1,
        ensures
            r.0.total_stories == stories@.len(),
            r.1.records@.len() >= 2,
            r.0.all_passed ==> r.0.stories_passed == stories@.len(),
            r.1.completion is Some,
            (r.0.error is None) <==> r.1.spec_completion_status() == Some("success"@),
            forall|k: int| 0 <= k < r.1.step_log@.len()
                ==> crate::evidence::writer::spec_step_terminal(#[trigger] r.1.step_log@[k]),
            r.1.spec_completion_error_type() == Some("circuit_breaker"@) ==> exists|c: int|
                #![trigger crate::text::dec_chars(c)]
                c >= self.config.circuit_breaker_threshold && (r.0.error matches Some(e) && e@
                    == spec_breaker_error(c, self.config.circuit_breaker_threshold as int)),
            spec_fast_path_set(stories@) ==> (r.0.all_passed && r.0.stories_passed
                == stories@.len() && r.0.total_iterations == 0 && r.0.error is None
                && r.1.step_log@.len() == 0 && r.1.spec_completion_status() == Some("success"@)),
            (forall|i: int| 0 <= i < reconciliations@.len()
                ==> #[trigger] reconciliations@[i] is Clean)
                ==> r.1.spec_completion_error_type() != Some("reconciliation_failed"@),
            r.1.spec_completion_error_type() == Some("failed_steps"@) ==> spec_has_failed_event(
                r.1.step_log@,
            ),
            exists|e: crate::evidence::lifecycle::LifecycleEvent|
                {
                    &&& r.1.records@.last().payload_json@
                        == #[trigger] crate::evidence::writer::spec_lifecycle_payload(e)
                    &&& e.event_type
                        == crate::evidence::lifecycle::LifecycleEventType::RunComplete
                    &&& (r.1.completion matches Some(c) && e.status matches Some(s2) && s2@
                        == c.0@)
                },
            self.config.circuit_breaker_threshold >= 1 && r.1.spec_completion_error_type()
                == Some("circuit_breaker"@) ==> spec_has_failed_event(r.1.step_log@),
    {
        let total_stories = stories.len();
        let mut writer = match EvidenceWriter::try_new(self.working_dir.as_str(), self.run_id.clone()) {
            Ok(w) => w,
            Err(_) => EvidenceWriter {
                run_id: self.run_id.clone(),
                root_dir: String::new(),
                records: Vec::new(),
                step_log: Vec::new(),
                completion: None,
            },
        };
        writer.emit_run_start();
        let mut metrics = RunMetricsCollector::new(self.run_id.clone(), 0);

        // Reject duplicate story ids before anything dispatches.
        let mut seen = StringSet::new();
        let mut i: usize = 0;
        let mut duplicate = false;
        while i < stories.len()
            invariant
                i <= stories@.len(),
                seen.wf(),
                !duplicate ==> forall|a: int, b: int| 0 <= a < b < i ==> (
                #[trigger] stories@[a]).id@ != (#[trigger] stories@[b]).id@,
                !duplicate ==> forall|z: Seq<char>| #[trigger] seen.spec_contains(z) <==> (exists|
                    a: int,
                | 0 <= a < i && (#[trigger] stories@[a]).id@ == z),
                duplicate ==> exists|a: int, b: int|
                    0 <= a < b < stories@.len() && (#[trigger] stories@[a]).id@ == (
                    #[trigger] stories@[b]).id@,
            decreases stories@.len() - i,
        {
            if seen.contains(stories[i].id.as_str()) {
                proof {
                    if !duplicate {
                        let a = choose|a: int|
                            0 <= a < i && (#[trigger] stories@[a]).id@ == stories@[i as int].id@;
                        assert(0 <= a < i < stories@.len());
                    }
                }
                duplicate = true;
            }
            seen.insert(stories[i].id.clone());
            proof {
                assert(stories@[i as int].id@ == stories@[i as int].id@);
            }
            i += 1;
        }
        if duplicate {
            proof {
                assert(!spec_fast_path_set(stories@));
            }
            proof {
                lemma_status_words();
                lemma_error_tags();
            }
            writer.emit_run_complete(
                String::from_str("failed"),
                Some(String::from_str("fatal")),
                Some(String::from_str("Invalid story set: duplicate story id")),
            );
            return (
                RunResult {
                    all_passed: false,
                    stories_passed: 0,
                    total_stories,
                    total_iterations: 0,
                    error: Some(String::from_str("Invalid story set: duplicate story id")),
                },
                writer,
                metrics,
            );
        }

        // Build and validate the dependency graph.
        let mut graph = DependencyGraph::from_stories(stories);
        let ghost graph0 = graph;
        if self.config.infer_dependencies {
            graph.infer_dependencies();
        }
        proof {
            if spec_fast_path_set(stories@) {
                assert(crate::parallel::graph::spec_no_deps(graph0.stories@));
                assert(crate::parallel::graph::spec_no_overlaps(graph0.stories@));
                assert(crate::parallel::graph::spec_no_deps(graph.stories@));
            }
        }
        match graph.validate() {
            Ok(_) => {},
            Err(e) => {
                proof {
                    assert(!spec_fast_path_set(stories@));
                }
                let mut msg = String::from_str("Invalid dependency graph: ");
                msg.append(e.as_str());
                proof {
                    lemma_status_words();
                    lemma_error_tags();
                }
                writer.emit_run_complete(
                    String::from_str("failed"),
                    Some(String::from_str("fatal")),
                    Some(msg.clone()),
                );
                return (
                    RunResult {
                        all_passed: false,
                        stories_passed: 0,
                        total_stories,
                        total_iterations: 0,
                        error: Some(msg),
                    },
                    writer,
                    metrics,
                );
            },
        }

        // Stories already passing are completed from the start.
        let mut state = ParallelExecutionState::new();
        let mut initially_passing: usize = 0;
        let mut i: usize = 0;
        while i < stories.len()
            invariant
                i <= stories@.len(),
                state.wf(),
                state.failed.entries@.len() == 0,
                initially_passing <= i,
                (forall|k: int| 0 <= k < i ==> (#[trigger] stories@[k]).passes)
                    ==> initially_passing == i,
            decreases stories@.len() - i,
        {
            if stories[i].passes {
                state.completed.insert(stories[i].id.clone());
                initially_passing += 1;
            }
            i += 1;
        }
        metrics.set_expected_steps(total_stories - initially_passing);

        if initially_passing == total_stories {
            proof {
                lemma_status_words();
                lemma_error_tags();
            }
            writer.emit_run_complete(String::from_str("success"), None, None);
            return (
                RunResult {
                    all_passed: true,
                    stories_passed: total_stories,
                    total_stories,
                    total_iterations: 0,
                    error: None,
                },
                writer,
                metrics,
            );
        }

        proof {
            // Past the fast-path return, the set is not on the fast path.
            if spec_fast_path_set(stories@) {
                assert(initially_passing == total_stories);
                assert(false);
            }
        }
        let mut cumulative_failures: u32 = 0;
        let mut total_iterations: u32 = 0;
        let mut recon_idx: usize = 0;
        let mut pending: Vec<StoryNode> = Vec::new();
        let mut queued_ids = StringSet::new();
        let mut fuel: usize = if total_stories <= usize::MAX / 4 {
            total_stories * 2 + 2
        } else {
            usize::MAX
        };

        loop
            invariant
                state.wf(),
                queued_ids.wf(),
                outcomes.wf(),
                metrics.wf(),
                writer.records@.len() >= 1,
                writer.completion is None,
                state.failed.entries@.len() > 0 ==> spec_has_failed_event(writer.step_log@),
                cumulative_failures > 0 ==> spec_has_failed_event(writer.step_log@),
                forall|k: int| 0 <= k < writer.step_log@.len()
                    ==> crate::evidence::writer::spec_step_terminal(
                    #[trigger] writer.step_log@[k],
                ),
                total_stories == stories@.len(),
                !spec_fast_path_set(stories@),
            decreases fuel,
        {
            if fuel == 0 {
                let msg = String::from_str("Scheduler made no progress");
                proof {
                    lemma_status_words();
                    lemma_error_tags();
                }
                writer.emit_run_complete(
                    String::from_str("failed"),
                    Some(String::from_str("fatal")),
                    Some(msg.clone()),
                );
                return (
                    RunResult {
                        all_passed: false,
                        stories_passed: state.completed.len(),
                        total_stories,
                        total_iterations,
                        error: Some(msg),
                    },
                    writer,
                    metrics,
                );
            }
            fuel -= 1;

            // Ready stories: dependencies completed, not completed, not
            // failed, not in flight, not already queued.
            let ready_all = graph.get_ready_stories(&state.completed);
            let mut ready: Vec<StoryNode> = Vec::new();
            let mut k: usize = 0;
            while k < ready_all.len()
                invariant
                    k <= ready_all@.len(),
                    state.wf(),
                    queued_ids.wf(),
                decreases ready_all@.len() - k,
            {
                let id = ready_all[k].id.as_str();
                if !state.in_flight.contains(id) && !queued_ids.contains(id)
                    && !state.failed.contains_key(id) {
                    ready.push(ready_all[k].duplicate());
                }
                k += 1;
            }
            let mut distinct = true;
            let mut seen_ready = StringSet::new();
            let mut k: usize = 0;
            while k < ready.len()
                invariant
                    k <= ready@.len(),
                    seen_ready.wf(),
                    distinct ==> forall|a: int, b: int| 0 <= a < b < k ==> (
                    #[trigger] ready@[a]).id@ != (#[trigger] ready@[b]).id@,
                    distinct ==> forall|z: Seq<char>| #[trigger] seen_ready.spec_contains(z) <==> (
                    exists|a: int| 0 <= a < k && (#[trigger] ready@[a]).id@ == z),
                decreases ready@.len() - k,
            {
                if seen_ready.contains(ready[k].id.as_str()) {
                    distinct = false;
                }
                seen_ready.insert(ready[k].id.clone());
                proof {
                    assert(ready@[k as int].id@ == ready@[k as int].id@);
                }
                k += 1;
            }
            let (ready, _conflicts) = if distinct {
                filter_conflicting_stories(ready)
            } else {
                (ready, Vec::new())
            };
            let ready_empty = ready.len() == 0;

            // Enqueue with backpressure.
            let mut r: usize = 0;
            while r < ready.len()
                invariant
                    r <= ready@.len(),
                    state.wf(),
                    queued_ids.wf(),
                    metrics.wf(),
                    writer.records@.len() >= 1,
                    writer.completion is None,
                    state.failed.entries@.len() > 0 ==> spec_has_failed_event(writer.step_log@),
                    cumulative_failures > 0 ==> spec_has_failed_event(writer.step_log@),
                    forall|k: int| 0 <= k < writer.step_log@.len()
                        ==> crate::evidence::writer::spec_step_terminal(
                        #[trigger] writer.step_log@[k],
                    ),
                decreases ready@.len() - r,
            {
                if pending.len() >= self.config.queue_capacity {
                    match self.config.queue_policy {
                        QueuePolicy::Block => {
                            break ;
                        },
                        QueuePolicy::Reject => {
                            let story = &ready[r];
                            let reason = String::from_str(
                                "Queue full - rejected by backpressure policy",
                            );
                            state.failed.insert(story.id.clone(), reason.clone());
                            metrics.start_step(story.id.clone());
                            metrics.complete_step(
                                story.id.as_str(),
                                false,
                                1,
                                crate::duration::DurationMs { millis: 0 },
                                Some(reason.clone()),
                            );
                            writer.emit_step(
                                story.id.clone(),
                                String::from_str("failed"),
                                Some(String::from_str("queue_full")),
                                Some(reason),
                            );
                            proof {
                                assert forall|k2: int| 0 <= k2 < writer.step_log@.len() implies
                                    crate::evidence::writer::spec_step_terminal(#[trigger] writer.step_log@[k2]) by {
                                    if k2 < writer.step_log@.len() - 1 {
                                        assert(writer.step_log@[k2] == writer.step_log@.drop_last()[k2]);
                                    }
                                }
                                lemma_failed_event_push(writer.step_log@.drop_last(), writer.step_log@);
                            }
                            metrics.record_evidence_step(story.id.clone());
                            r += 1;
                            continue ;
                        },
                        QueuePolicy::DropOldest => {
                            if pending.len() > 0 {
                                let dropped = pending.remove(0);
                                queued_ids.remove(dropped.id.as_str());
                                let reason = String::from_str("Queue full - dropped oldest");
                                state.failed.insert(dropped.id.clone(), reason.clone());
                                metrics.start_step(dropped.id.clone());
                                metrics.complete_step(
                                    dropped.id.as_str(),
                                    false,
                                    1,
                                    crate::duration::DurationMs { millis: 0 },
                                    Some(reason.clone()),
                                );
                                writer.emit_step(
                                    dropped.id.clone(),
                                    String::from_str("failed"),
                                    Some(String::from_str("queue_full")),
                                    Some(reason),
                                );
                                proof {
                                    assert forall|k2: int| 0 <= k2 < writer.step_log@.len() implies
                                        crate::evidence::writer::spec_step_terminal(#[trigger] writer.step_log@[k2]) by {
                                        if k2 < writer.step_log@.len() - 1 {
                                            assert(writer.step_log@[k2] == writer.step_log@.drop_last()[k2]);
                                        }
                                    }
                                    lemma_failed_event_push(writer.step_log@.drop_last(), writer.step_log@);
                                }
                                metrics.record_evidence_step(dropped.id.clone());
                            }
                        },
                    }
                }
                if pending.len() < self.config.queue_capacity {
                    queued_ids.insert(ready[r].id.clone());
                    pending.push(ready[r].duplicate());
                }
                r += 1;
            }

            // Termination: nothing ready, nothing queued, nothing in
            // flight.
            if ready_empty && state.in_flight.is_empty() && pending.len() == 0 {
                let stories_passed = state.completed.len();
                let has_failures = !state.failed.is_empty();
                if has_failures {
                    let msg = String::from_str("Some stories failed");
                    proof {
                        lemma_status_words();
                        lemma_error_tags();
                    }
                    writer.emit_run_complete(
                        String::from_str("failed"),
                        Some(String::from_str("failed_steps")),
                        Some(msg.clone()),
                    );
                    return (
                        RunResult {
                            all_passed: false,
                            stories_passed,
                            total_stories,
                            total_iterations,
                            error: Some(msg),
                        },
                        writer,
                        metrics,
                    );
                } else {
                    proof {
                        lemma_status_words();
                        lemma_error_tags();
                    }
                    writer.emit_run_complete(String::from_str("success"), None, None);
                    return (
                        RunResult {
                            all_passed: stories_passed == total_stories,
                            stories_passed,
                            total_stories,
                            total_iterations,
                            error: None,
                        },
                        writer,
                        metrics,
                    );
                }
            }

            let batch = dispatch_batch(
                &mut state,
                &mut pending,
                &mut queued_ids,
                self.config.max_concurrency,
            );

            // Execute the batch against the configured outcomes.
            let mut batch_failures: u32 = 0;
            let mut timed_out: Vec<String> = Vec::new();
            let mut batch_ids: Vec<String> = Vec::new();
            let mut b: usize = 0;
            while b < batch.len()
                invariant
                    b <= batch@.len(),
                    state.wf(),
                    queued_ids.wf(),
                    outcomes.wf(),
                    metrics.wf(),
                    writer.records@.len() >= 1,
                    writer.completion is None,
                    state.failed.entries@.len() > 0 ==> spec_has_failed_event(writer.step_log@),
                    cumulative_failures > 0 ==> spec_has_failed_event(writer.step_log@),
                    batch_failures > 0 ==> spec_has_failed_event(writer.step_log@),
                    forall|k: int| 0 <= k < writer.step_log@.len()
                        ==> crate::evidence::writer::spec_step_terminal(
                        #[trigger] writer.step_log@[k],
                    ),
                decreases batch@.len() - b,
            {
                let story = &batch[b];
                batch_ids.push(story.id.clone());
                metrics.start_step(story.id.clone());
                let outcome: StoryOutcome = match outcomes.get(story.id.as_str()) {
                    Some(StoryOutcome::Success { iterations }) => StoryOutcome::Success {
                        iterations: *iterations,
                    },
                    Some(StoryOutcome::GateFailure { iterations, error }) => StoryOutcome::GateFailure {
                        iterations: *iterations,
                        error: error.clone(),
                    },
                    Some(StoryOutcome::ExecError { category, message }) => StoryOutcome::ExecError {
                        category: *category,
                        message: message.clone(),
                    },
                    Some(StoryOutcome::NeverReturns) => StoryOutcome::NeverReturns,
                    None => StoryOutcome::ExecError {
                        category: ErrorCategory::Fatal,
                        message: String::from_str("No executor outcome for story"),
                    },
                };
                match outcome {
                    StoryOutcome::NeverReturns => {
                        // Still in flight when the batch timeout fires.
                        timed_out.push(story.id.clone());
                    },
                    StoryOutcome::Success { iterations } => {
                        state.in_flight.remove(story.id.as_str());
                        state.release_locks(story.id.as_str());
                        state.completed.insert(story.id.clone());
                        let attempts = if iterations >= 1 {
                            iterations
                        } else {
                            1
                        };
                        metrics.complete_step(
                            story.id.as_str(),
                            true,
                            attempts,
                            crate::duration::DurationMs { millis: 0 },
                            None,
                        );
                        writer.emit_step(
                            story.id.clone(),
                            String::from_str("completed"),
                            None,
                            None,
                        );
                        proof {
                            assert forall|k2: int| 0 <= k2 < writer.step_log@.len() implies
                                crate::evidence::writer::spec_step_terminal(#[trigger] writer.step_log@[k2]) by {
                                if k2 < writer.step_log@.len() - 1 {
                                    assert(writer.step_log@[k2] == writer.step_log@.drop_last()[k2]);
                                }
                            }
                            lemma_failed_event_push(writer.step_log@.drop_last(), writer.step_log@);
                        }
                        metrics.record_evidence_step(story.id.clone());
                        total_iterations = sat_add_u32(total_iterations, iterations);
                    },
                    StoryOutcome::GateFailure { iterations, error } => {
                        state.in_flight.remove(story.id.as_str());
                        state.release_locks(story.id.as_str());
                        state.failed.insert(story.id.clone(), error.clone());
                        let attempts = if iterations >= 1 {
                            iterations
                        } else {
                            1
                        };
                        metrics.complete_step(
                            story.id.as_str(),
                            false,
                            attempts,
                            crate::duration::DurationMs { millis: 0 },
                            Some(error.clone()),
                        );
                        writer.emit_step(
                            story.id.clone(),
                            String::from_str("failed"),
                            Some(String::from_str("quality_gates_failed")),
                            Some(error),
                        );
                        proof {
                            assert forall|k2: int| 0 <= k2 < writer.step_log@.len() implies
                                crate::evidence::writer::spec_step_terminal(#[trigger] writer.step_log@[k2]) by {
                                if k2 < writer.step_log@.len() - 1 {
                                    assert(writer.step_log@[k2] == writer.step_log@.drop_last()[k2]);
                                }
                            }
                            lemma_failed_event_push(writer.step_log@.drop_last(), writer.step_log@);
                        }
                        metrics.record_evidence_step(story.id.clone());
                        total_iterations = sat_add_u32(total_iterations, iterations);
                        batch_failures = sat_add_u32(batch_failures, 1);
                    },
                    StoryOutcome::ExecError { category, message } => {
                        state.in_flight.remove(story.id.as_str());
                        state.release_locks(story.id.as_str());
                        state.failed.insert(story.id.clone(), message.clone());
                        metrics.complete_step(
                            story.id.as_str(),
                            false,
                            1,
                            crate::duration::DurationMs { millis: 0 },
                            Some(message.clone()),
                        );
                        writer.emit_step(
                            story.id.clone(),
                            String::from_str("failed"),
                            Some(String::from_str(error_category_label(&category))),
                            Some(message),
                        );
                        proof {
                            assert forall|k2: int| 0 <= k2 < writer.step_log@.len() implies
                                crate::evidence::writer::spec_step_terminal(#[trigger] writer.step_log@[k2]) by {
                                if k2 < writer.step_log@.len() - 1 {
                                    assert(writer.step_log@[k2] == writer.step_log@.drop_last()[k2]);
                                }
                            }
                            lemma_failed_event_push(writer.step_log@.drop_last(), writer.step_log@);
                        }
                        metrics.record_evidence_step(story.id.clone());
                        total_iterations = sat_add_u32(total_iterations, 1);
                        if !matches!(category, ErrorCategory::Transient) {
                            batch_failures = sat_add_u32(batch_failures, 1);
                        }
                    },
                }
                b += 1;
            }

            // Batch timeout: every story still in flight fails and frees
            // its locks; these count as non-transient failures.
            let mut t: usize = 0;
            while t < timed_out.len()
                invariant
                    t <= timed_out@.len(),
                    state.wf(),
                    queued_ids.wf(),
                    metrics.wf(),
                    writer.records@.len() >= 1,
                    writer.completion is None,
                    state.failed.entries@.len() > 0 ==> spec_has_failed_event(writer.step_log@),
                    cumulative_failures > 0 ==> spec_has_failed_event(writer.step_log@),
                    batch_failures > 0 ==> spec_has_failed_event(writer.step_log@),
                    forall|k: int| 0 <= k < writer.step_log@.len()
                        ==> crate::evidence::writer::spec_step_terminal(
                        #[trigger] writer.step_log@[k],
                    ),
                decreases timed_out@.len() - t,
            {
                let id = &timed_out[t];
                state.in_flight.remove(id.as_str());
                state.release_locks(id.as_str());
                let mut reason = String::from_str("Batch timed out after ");
                push_dec(&mut reason, self.config.batch_timeout.millis);
                reason.append("ms");
                state.failed.insert(id.clone(), reason.clone());
                metrics.start_step(id.clone());
                metrics.complete_step(
                    id.as_str(),
                    false,
                    1,
                    crate::duration::DurationMs { millis: 0 },
                    Some(reason.clone()),
                );
                writer.emit_step(
                    id.clone(),
                    String::from_str("failed"),
                    Some(String::from_str("batch_timeout")),
                    Some(reason),
                );
                proof {
                    assert forall|k2: int| 0 <= k2 < writer.step_log@.len() implies
                        crate::evidence::writer::spec_step_terminal(#[trigger] writer.step_log@[k2]) by {
                        if k2 < writer.step_log@.len() - 1 {
                            assert(writer.step_log@[k2] == writer.step_log@.drop_last()[k2]);
                        }
                    }
                    lemma_failed_event_push(writer.step_log@.drop_last(), writer.step_log@);
                }
                metrics.record_evidence_step(id.clone());
                batch_failures = sat_add_u32(batch_failures, 1);
                t += 1;
            }

            cumulative_failures = sat_add_u32(cumulative_failures, batch_failures);
            proof {
                if cumulative_failures > 0 {
                    assert(spec_has_failed_event(writer.step_log@));
                }
            }

            // Circuit breaker: cumulative non-transient failures at or
            // above the threshold end the run with a resume hint.
            if batch.len() > 0 && breaker_trips(
                cumulative_failures,
                self.config.circuit_breaker_threshold,
            ) {
                let mut msg = String::from_str("Circuit breaker triggered: ");
                push_dec(&mut msg, cumulative_failures as u64);
                msg.append(" failures across batches (threshold: ");
                push_dec(&mut msg, self.config.circuit_breaker_threshold as u64);
                msg.append(")");
                proof {
                    lemma_status_words();
                    lemma_error_tags();
                }
                writer.emit_run_complete(
                    String::from_str("failed"),
                    Some(String::from_str("circuit_breaker")),
                    Some(msg.clone()),
                );
                let mut err = msg;
                err.append(". Checkpoint saved. Resume with: ralph --resume");
                return (
                    RunResult {
                        all_passed: false,
                        stories_passed: state.completed.len(),
                        total_stories,
                        total_iterations,
                        error: Some(err),
                    },
                    writer,
                    metrics,
                );
            }

            // Reconciliation over the batch, with sequential fallback.
            if batch.len() > 0 {
                let ghost vi = recon_idx as int;
                let verdict: &ReconciliationResult = if recon_idx < reconciliations.len() {
                    let v = &reconciliations[recon_idx];
                    v
                } else {
                    &ReconciliationResult::Clean
                };
                if recon_idx < usize::MAX {
                    recon_idx += 1;
                }
                match verdict {
                    ReconciliationResult::Clean => {},
                    ReconciliationResult::IssuesFound(issues) => {
                        proof {
                            if forall|i: int| 0 <= i < reconciliations@.len()
                                ==> #[trigger] reconciliations@[i] is Clean {
                                assert(vi < reconciliations@.len());
                                assert(reconciliations@[vi] is Clean);
                                assert(false);
                            }
                        }
                        if !self.config.fallback_to_sequential {
                            let mut msg = String::from_str("Reconciliation failed with ");
                            push_dec(&mut msg, issues.len() as u64);
                            msg.append(" issues (fallback disabled)");
                            proof {
                                lemma_status_words();
                                lemma_error_tags();
                            }
                            writer.emit_run_complete(
                                String::from_str("failed"),
                                Some(String::from_str("reconciliation_failed")),
                                Some(msg.clone()),
                            );
                            return (
                                RunResult {
                                    all_passed: false,
                                    stories_passed: state.completed.len(),
                                    total_stories,
                                    total_iterations,
                                    error: Some(msg),
                                },
                                writer,
                                metrics,
                            );
                        }
                        let affected = get_affected_stories(issues, &batch_ids, &batch);
                        let mut a: usize = 0;
                        while a < affected.len()
                            invariant
                                a <= affected@.len(),
                                state.wf(),
                                state.failed.entries@.len() > 0 ==> spec_has_failed_event(
                                    writer.step_log@,
                                ),
                            decreases affected@.len() - a,
                        {
                            state.completed.remove(affected[a].as_str());
                            state.failed.remove(affected[a].as_str());
                            a += 1;
                        }
                        let mut a: usize = 0;
                        while a < affected.len()
                            invariant
                                a <= affected@.len(),
                                state.wf(),
                                outcomes.wf(),
                                metrics.wf(),
                                writer.records@.len() >= 1,
                                writer.completion is None,
                                state.failed.entries@.len() > 0 ==> spec_has_failed_event(writer.step_log@),
                                cumulative_failures > 0 ==> spec_has_failed_event(writer.step_log@),
                                forall|k: int| 0 <= k < writer.step_log@.len()
                                    ==> crate::evidence::writer::spec_step_terminal(
                                    #[trigger] writer.step_log@[k],
                                ),
                            decreases affected@.len() - a,
                        {
                            let id = &affected[a];
                            metrics.start_step(id.clone());
                            let outcome: StoryOutcome = match outcomes.get(id.as_str()) {
                                Some(StoryOutcome::Success { iterations }) => StoryOutcome::Success {
                                    iterations: *iterations,
                                },
                                Some(StoryOutcome::GateFailure { iterations, error }) => StoryOutcome::GateFailure {
                                    iterations: *iterations,
                                    error: error.clone(),
                                },
                                Some(StoryOutcome::ExecError { category, message }) => StoryOutcome::ExecError {
                                    category: *category,
                                    message: message.clone(),
                                },
                                Some(StoryOutcome::NeverReturns) => StoryOutcome::ExecError {
                                    category: ErrorCategory::Timeout,
                                    message: String::from_str("Story executor did not return"),
                                },
                                None => StoryOutcome::ExecError {
                                    category: ErrorCategory::Fatal,
                                    message: String::from_str("No executor outcome for story"),
                                },
                            };
                            match outcome {
                                StoryOutcome::Success { iterations } => {
                                    state.completed.insert(id.clone());
                                    let attempts = if iterations >= 1 {
                                        iterations
                                    } else {
                                        1
                                    };
                                    metrics.complete_step(
                                        id.as_str(),
                                        true,
                                        attempts,
                                        crate::duration::DurationMs { millis: 0 },
                                        None,
                                    );
                                    writer.emit_step(
                                        id.clone(),
                                        String::from_str("completed"),
                                        None,
                                        None,
                                    );
                                    proof {
                                        assert forall|k2: int| 0 <= k2 < writer.step_log@.len() implies
                                            crate::evidence::writer::spec_step_terminal(#[trigger] writer.step_log@[k2]) by {
                                            if k2 < writer.step_log@.len() - 1 {
                                                assert(writer.step_log@[k2] == writer.step_log@.drop_last()[k2]);
                                            }
                                        }
                                        lemma_failed_event_push(writer.step_log@.drop_last(), writer.step_log@);
                                    }
                                    metrics.record_evidence_step(id.clone());
                                    total_iterations = sat_add_u32(total_iterations, iterations);
                                },
                                StoryOutcome::GateFailure { iterations, error } => {
                                    state.failed.insert(id.clone(), error.clone());
                                    let attempts = if iterations >= 1 {
                                        iterations
                                    } else {
                                        1
                                    };
                                    metrics.complete_step(
                                        id.as_str(),
                                        false,
                                        attempts,
                                        crate::duration::DurationMs { millis: 0 },
                                        Some(error.clone()),
                                    );
                                    writer.emit_step(
                                        id.clone(),
                                        String::from_str("failed"),
                                        Some(String::from_str("quality_gates_failed")),
                                        Some(error),
                                    );
                                    proof {
                                        assert forall|k2: int| 0 <= k2 < writer.step_log@.len() implies
                                            crate::evidence::writer::spec_step_terminal(#[trigger] writer.step_log@[k2]) by {
                                            if k2 < writer.step_log@.len() - 1 {
                                                assert(writer.step_log@[k2] == writer.step_log@.drop_last()[k2]);
                                            }
                                        }
                                        lemma_failed_event_push(writer.step_log@.drop_last(), writer.step_log@);
                                    }
                                    metrics.record_evidence_step(id.clone());
                                    total_iterations = sat_add_u32(total_iterations, iterations);
                                },
                                StoryOutcome::ExecError { category, message } => {
                                    state.failed.insert(id.clone(), message.clone());
                                    metrics.complete_step(
                                        id.as_str(),
                                        false,
                                        1,
                                        crate::duration::DurationMs { millis: 0 },
                                        Some(message.clone()),
                                    );
                                    writer.emit_step(
                                        id.clone(),
                                        String::from_str("failed"),
                                        Some(String::from_str(error_category_label(&category))),
                                        Some(message),
                                    );
                                    proof {
                                        assert forall|k2: int| 0 <= k2 < writer.step_log@.len() implies
                                            crate::evidence::writer::spec_step_terminal(#[trigger] writer.step_log@[k2]) by {
                                            if k2 < writer.step_log@.len() - 1 {
                                                assert(writer.step_log@[k2] == writer.step_log@.drop_last()[k2]);
                                            }
                                        }
                                        lemma_failed_event_push(writer.step_log@.drop_last(), writer.step_log@);
                                    }
                                    metrics.record_evidence_step(id.clone());
                                    total_iterations = sat_add_u32(total_iterations, 1);
                                },
                                StoryOutcome::NeverReturns => {},
                            }
                            a += 1;
                        }
                        // Reconciliation again after the sequential
                        // retry.
                        let ghost wi = recon_idx as int;
                        let post: &ReconciliationResult = if recon_idx < reconciliations.len() {
                            let v = &reconciliations[recon_idx];
                            v
                        } else {
                            &ReconciliationResult::Clean
                        };
                        if recon_idx < usize::MAX {
                            recon_idx += 1;
                        }
                        match post {
                            ReconciliationResult::Clean => {},
                            ReconciliationResult::IssuesFound(remaining) => {
                                proof {
                                    if forall|i: int| 0 <= i < reconciliations@.len()
                                        ==> #[trigger] reconciliations@[i] is Clean {
                                        assert(wi < reconciliations@.len());
                                        assert(reconciliations@[wi] is Clean);
                                        assert(false);
                                    }
                                }
                                let mut msg = String::from_str("Reconciliation failed with ");
                                push_dec(&mut msg, remaining.len() as u64);
                                msg.append(" issues after sequential retry");
                                proof {
                                    lemma_status_words();
                                    lemma_error_tags();
                                }
                                writer.emit_run_complete(
                                    String::from_str("failed"),
                                    Some(String::from_str("reconciliation_failed")),
                                    Some(msg.clone()),
                                );
                                return (
                                    RunResult {
                                        all_passed: false,
                                        stories_passed: state.completed.len(),
                                        total_stories,
                                        total_iterations,
                                        error: Some(msg),
                                    },
                                    writer,
                                    metrics,
                                );
                            },
                        }
                    },
                }
            }
        }
    }
}

} // verus!
