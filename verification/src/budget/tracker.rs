//! Token budget tracking and enforcement.

use vstd::prelude::*;

use crate::budget::config::{spec_cost, TokenBudgetConfig};
use crate::budget::estimator::{sat_add, sat_add_u64, spec_estimate, word_count_of, TokenCount,
    TokenEstimator};
use crate::text::{dec_chars, push_dec};

verus! {

/// Status of budget usage.
#[derive(Clone, Copy, Debug, PartialEq, Eq, Structural)]
pub enum BudgetStatus {
    /// Under the warning threshold.
    Normal,
    /// Over the warning threshold.
    Warning,
    /// Over the critical threshold.
    Critical,
    /// Budget exceeded.
    Exceeded,
}

impl BudgetStatus {
    /// Whether execution should continue under this status.
    pub fn should_continue(&self) -> (r: bool)
        ensures
            r == (*self != BudgetStatus::Exceeded),
    {
        !matches!(self, BudgetStatus::Exceeded)
    }

    /// Whether warnings should be emitted under this status.
    pub fn should_warn(&self) -> (r: bool)
        ensures
            r == (*self == BudgetStatus::Warning || *self == BudgetStatus::Critical),
    {
        matches!(self, BudgetStatus::Warning | BudgetStatus::Critical)
    }
}

/// The status of `used` against `limit`, with thresholds in per-mille.
///
/// A zero limit counts as zero usage. Usage at or above the limit is
/// `Exceeded`; at or above a threshold fraction, `Critical` or `Warning`.
pub open spec fn spec_status(used: int, limit: int, warn_pm: int, crit_pm: int) -> BudgetStatus {
    let n = if limit == 0 { 0 } else { used };
    let d = if limit == 0 { 1 } else { limit };
    if n >= d {
        BudgetStatus::Exceeded
    } else if n * 1000 >= crit_pm * d {
        BudgetStatus::Critical
    } else if n * 1000 >= warn_pm * d {
        BudgetStatus::Warning
    } else {
        BudgetStatus::Normal
    }
}

/// Compute `spec_status` on machine integers.
fn status_of(used: u64, limit: u64, warn_pm: u32, crit_pm: u32) -> (r: BudgetStatus)
    ensures
        r == spec_status(used as int, limit as int, warn_pm as int, crit_pm as int),
{
    proof {
        crate::text::lemma_u64_mul_fits_u128(used, 1000);
        crate::text::lemma_u64_mul_fits_u128(crit_pm as u64, limit);
        crate::text::lemma_u64_mul_fits_u128(warn_pm as u64, limit);
    }
    let n: u128 = if limit == 0 { 0 } else { used as u128 };
    let d: u128 = if limit == 0 { 1 } else { limit as u128 };
    if n >= d {
        BudgetStatus::Exceeded
    } else if n * 1000 >= (crit_pm as u128) * d {
        BudgetStatus::Critical
    } else if n * 1000 >= (warn_pm as u128) * d {
        BudgetStatus::Warning
    } else {
        BudgetStatus::Normal
    }
}

/// The worse of two budget statuses, in the order
/// `Exceeded > Critical > Warning > Normal`.
pub open spec fn spec_effective_status(a: BudgetStatus, b: BudgetStatus) -> BudgetStatus {
    if a == BudgetStatus::Exceeded || b == BudgetStatus::Exceeded {
        BudgetStatus::Exceeded
    } else if a == BudgetStatus::Critical || b == BudgetStatus::Critical {
        BudgetStatus::Critical
    } else if a == BudgetStatus::Warning || b == BudgetStatus::Warning {
        BudgetStatus::Warning
    } else {
        BudgetStatus::Normal
    }
}

/// Result of a budget enforcement check.
#[derive(Clone, Debug)]
pub struct BudgetEnforcement {
    /// Whether execution can continue.
    pub can_continue: bool,
    /// Current story budget status.
    pub story_status: BudgetStatus,
    /// Total budget status.
    pub total_status: BudgetStatus,
    /// Cost status.
    pub cost_status: BudgetStatus,
    /// Reason when execution should stop.
    pub stop_reason: Option<String>,
    /// Recommended action.
    pub recommendation: String,
    /// Remaining story tokens.
    pub story_remaining: u64,
    /// Remaining total tokens.
    pub total_remaining: u64,
    /// Remaining cost budget (millicents).
    pub cost_remaining: u64,
}

impl BudgetEnforcement {
    /// An enforcement result that allows continuation.
    pub fn allow() -> (r: Self)
        ensures
            r.can_continue,
            r.story_status == BudgetStatus::Normal,
            r.total_status == BudgetStatus::Normal,
            r.cost_status == BudgetStatus::Normal,
            r.stop_reason is None,
            r.story_remaining == u64::MAX,
            r.total_remaining == u64::MAX,
            r.cost_remaining == u64::MAX,
    {
        BudgetEnforcement {
            can_continue: true,
            story_status: BudgetStatus::Normal,
            total_status: BudgetStatus::Normal,
            cost_status: BudgetStatus::Normal,
            stop_reason: None,
            recommendation: String::from_str("Continue execution"),
            story_remaining: u64::MAX,
            total_remaining: u64::MAX,
            cost_remaining: u64::MAX,
        }
    }

    /// An enforcement result that stops execution.
    pub fn stop(reason: String) -> (r: Self)
        ensures
            !r.can_continue,
            r.story_status == BudgetStatus::Exceeded,
            r.total_status == BudgetStatus::Exceeded,
            r.cost_status == BudgetStatus::Exceeded,
            r.stop_reason == Some(reason),
            r.story_remaining == 0,
            r.total_remaining == 0,
            r.cost_remaining == 0,
    {
        BudgetEnforcement {
            can_continue: false,
            story_status: BudgetStatus::Exceeded,
            total_status: BudgetStatus::Exceeded,
            cost_status: BudgetStatus::Exceeded,
            stop_reason: Some(reason),
            recommendation: String::from_str("Stop execution and review budget"),
            story_remaining: 0,
            total_remaining: 0,
            cost_remaining: 0,
        }
    }
}

/// Budget tracking for a single story.
#[derive(Clone, Debug)]
pub struct StoryBudget {
    /// Story ID.
    pub story_id: String,
    /// Total input tokens used.
    pub input_tokens: u64,
    /// Total output tokens used.
    pub output_tokens: u64,
    /// Number of iterations.
    pub iterations: u32,
    /// Tokens used per iteration.
    pub tokens_per_iteration: Vec<TokenCount>,
    /// Budget limit for this story (0 = unlimited).
    pub budget_limit: u64,
}

/// `used` tokens remaining against `limit`, where a zero limit is unlimited.
pub open spec fn spec_remaining(used: int, limit: int) -> int {
    if limit == 0 {
        u64::MAX as int
    } else if limit >= used {
        limit - used
    } else {
        0
    }
}

impl StoryBudget {
    /// A fresh story budget tracker.
    pub fn new(story_id: String, budget_limit: u64) -> (r: Self)
        ensures
            r.story_id == story_id,
            r.input_tokens == 0,
            r.output_tokens == 0,
            r.iterations == 0,
            r.tokens_per_iteration@.len() == 0,
            r.budget_limit == budget_limit,
    {
        StoryBudget {
            story_id,
            input_tokens: 0,
            output_tokens: 0,
            iterations: 0,
            tokens_per_iteration: Vec::new(),
            budget_limit,
        }
    }

    /// Total tokens used, saturating.
    pub fn total_tokens(&self) -> (r: u64)
        ensures
            r == sat_add(self.input_tokens as int, self.output_tokens as int),
    {
        sat_add_u64(self.input_tokens, self.output_tokens)
    }

    /// Remaining budget; `u64::MAX` when unlimited.
    pub fn remaining(&self) -> (r: u64)
        ensures
            r == spec_remaining(
                sat_add(self.input_tokens as int, self.output_tokens as int),
                self.budget_limit as int,
            ),
    {
        if self.budget_limit == 0 {
            u64::MAX
        } else {
            let t = self.total_tokens();
            if self.budget_limit >= t {
                self.budget_limit - t
            } else {
                0
            }
        }
    }

    /// Record the tokens of one iteration.
    pub fn record_iteration(&mut self, tokens: TokenCount)
        ensures
            final(self).story_id == old(self).story_id,
            final(self).budget_limit == old(self).budget_limit,
            final(self).input_tokens == sat_add(
                old(self).input_tokens as int,
                tokens.input_tokens as int,
            ),
            final(self).output_tokens == sat_add(
                old(self).output_tokens as int,
                tokens.output_tokens as int,
            ),
            final(self).iterations == if old(self).iterations < u32::MAX {
                old(self).iterations + 1
            } else {
                u32::MAX as int
            },
            final(self).tokens_per_iteration@ == old(self).tokens_per_iteration@.push(tokens),
            final(self).input_tokens >= old(self).input_tokens,
            final(self).output_tokens >= old(self).output_tokens,
    {
        if self.iterations < u32::MAX {
            self.iterations = self.iterations + 1;
        }
        self.input_tokens = sat_add_u64(self.input_tokens, tokens.input_tokens);
        self.output_tokens = sat_add_u64(self.output_tokens, tokens.output_tokens);
        self.tokens_per_iteration.push(tokens);
    }

    /// Estimated further iterations the remaining budget allows, from the
    /// average spend per iteration so far; `u32::MAX` when unlimited or no
    /// iterations were recorded yet.
    pub fn estimated_remaining_iterations(&self) -> (r: u32)
        ensures
            (self.iterations == 0 || self.budget_limit == 0) ==> r == u32::MAX,
    {
        if self.iterations == 0 || self.budget_limit == 0 {
            return u32::MAX;
        }
        let total = self.total_tokens();
        if total == 0 {
            return u32::MAX;
        }
        let remaining_t = self.remaining();
        proof {
            crate::text::lemma_u64_mul_fits_u128(remaining_t, self.iterations as u64);
        }
        let remaining = remaining_t as u128;
        let est: u128 = remaining * (self.iterations as u128) / (total as u128);
        if est > u32::MAX as u128 {
            u32::MAX
        } else {
            est as u32
        }
    }

    /// Whether this story's budget is exceeded.
    pub fn is_exceeded(&self) -> (r: bool)
        ensures
            r == (self.budget_limit > 0 && sat_add(
                self.input_tokens as int,
                self.output_tokens as int,
            ) >= self.budget_limit),
    {
        self.budget_limit > 0 && self.total_tokens() >= self.budget_limit
    }
}

/// Main token budget tracker.
#[derive(Clone, Debug)]
pub struct TokenBudget {
    /// Enforcement configuration.
    pub config: TokenBudgetConfig,
    /// The estimator used for text-based recording.
    pub estimator: TokenEstimator,
    /// Total input tokens across all stories.
    pub total_input_tokens: u64,
    /// Total output tokens across all stories.
    pub total_output_tokens: u64,
    /// Per-story budgets, in the order stories were started.
    pub story_budgets: Vec<StoryBudget>,
    /// The story currently being tracked.
    pub current_story_id: Option<String>,
    /// Total cost incurred (millicents).
    pub total_cost_millicents: u64,
}

/// The index of the story with id `id`, or none.
pub open spec fn story_index_of(stories: Seq<StoryBudget>, id: Seq<char>) -> Option<int> {
    if exists|k: int| 0 <= k < stories.len() && stories[k].story_id@ == id {
        Some(choose|k: int| 0 <= k < stories.len() && stories[k].story_id@ == id)
    } else {
        None
    }
}

/// Updating the current story's unique entry realizes the per-entry
/// recording relation at every index, and keeps the ids pairwise distinct.
proof fn lemma_recorded_at(
    pre: Seq<StoryBudget>,
    post: Seq<StoryBudget>,
    k: int,
    current: Option<String>,
    input: int,
    output: int,
)
    requires
        0 <= k < pre.len(),
        post.len() == pre.len(),
        forall|j: int| 0 <= j < pre.len() && j != k ==> #[trigger] post[j] == pre[j],
        current matches Some(id) && pre[k].story_id@ == id@,
        post[k].story_id == pre[k].story_id,
        post[k].budget_limit == pre[k].budget_limit,
        post[k].input_tokens == sat_add(pre[k].input_tokens as int, input),
        post[k].output_tokens == sat_add(pre[k].output_tokens as int, output),
    ensures
        (forall|i: int, j: int| 0 <= i < j < pre.len() ==> (#[trigger] pre[i].story_id@) != (
        #[trigger] pre[j].story_id@)) ==> forall|j: int| 0 <= j < pre.len()
            ==> spec_recorded_entry(pre[j], #[trigger] post[j], current, input, output),
        (forall|i: int, j: int| 0 <= i < j < pre.len() ==> (#[trigger] pre[i].story_id@) != (
        #[trigger] pre[j].story_id@)) ==> forall|i: int, j: int| 0 <= i < j < post.len() ==> (
        #[trigger] post[i].story_id@) != (#[trigger] post[j].story_id@),
{
    if forall|i: int, j: int| 0 <= i < j < pre.len() ==> (#[trigger] pre[i].story_id@) != (
    #[trigger] pre[j].story_id@) {
        let id = current.unwrap();
        assert forall|j: int| 0 <= j < pre.len() implies spec_recorded_entry(
            pre[j],
            #[trigger] post[j],
            current,
            input,
            output,
        ) by {
            if j != k {
                assert(pre[j].story_id@ != pre[k].story_id@);
                assert(post[j] == pre[j]);
            }
        }
        assert forall|i: int, j: int| 0 <= i < j < post.len() implies (
        #[trigger] post[i].story_id@) != (#[trigger] post[j].story_id@) by {
            assert(post[i].story_id@ == pre[i].story_id@);
            assert(post[j].story_id@ == pre[j].story_id@);
        }
    }
}

/// How one tracked entry relates across a recording of `input`/`output`
/// tokens: the entry of the current story gains them saturating, every
/// other entry is untouched.
pub open spec fn spec_recorded_entry(
    pre: StoryBudget,
    post: StoryBudget,
    current: Option<String>,
    input: int,
    output: int,
) -> bool {
    match current {
        None => post == pre,
        Some(id) => if pre.story_id@ == id@ {
            post.story_id == pre.story_id && post.budget_limit == pre.budget_limit
                && post.input_tokens == sat_add(pre.input_tokens as int, input)
                && post.output_tokens == sat_add(pre.output_tokens as int, output)
        } else {
            post == pre
        },
    }
}

/// How one tracked entry relates across the recording of a full
/// iteration: the entry of the current story gains the tokens saturating,
/// its iteration count grows by one saturating, its history gains the
/// iteration's counts; every other entry is untouched.
pub open spec fn spec_iterated_entry(
    pre: StoryBudget,
    post: StoryBudget,
    current: Option<String>,
    input: u64,
    output: u64,
) -> bool {
    match current {
        None => post == pre,
        Some(id) => if pre.story_id@ == id@ {
            post.story_id == pre.story_id && post.budget_limit == pre.budget_limit
                && post.input_tokens == sat_add(pre.input_tokens as int, input as int)
                && post.output_tokens == sat_add(pre.output_tokens as int, output as int)
                && post.iterations == (if pre.iterations < u32::MAX {
                pre.iterations + 1
            } else {
                u32::MAX as int
            }) && post.tokens_per_iteration@ == pre.tokens_per_iteration@.push(
                TokenCount { input_tokens: input, output_tokens: output },
            )
        } else {
            post == pre
        },
    }
}

/// Updating the current story's unique entry by one full iteration
/// realizes the per-entry iteration relation at every index.
proof fn lemma_iterated_at(
    pre: Seq<StoryBudget>,
    post: Seq<StoryBudget>,
    k: int,
    current: Option<String>,
    input: u64,
    output: u64,
)
    requires
        0 <= k < pre.len(),
        post.len() == pre.len(),
        forall|j: int| 0 <= j < pre.len() && j != k ==> #[trigger] post[j] == pre[j],
        current matches Some(id) && pre[k].story_id@ == id@,
        post[k].story_id == pre[k].story_id,
        post[k].budget_limit == pre[k].budget_limit,
        post[k].input_tokens == sat_add(pre[k].input_tokens as int, input as int),
        post[k].output_tokens == sat_add(pre[k].output_tokens as int, output as int),
        post[k].iterations == (if pre[k].iterations < u32::MAX {
            pre[k].iterations + 1
        } else {
            u32::MAX as int
        }),
        post[k].tokens_per_iteration@ == pre[k].tokens_per_iteration@.push(
            TokenCount { input_tokens: input, output_tokens: output },
        ),
    ensures
        (forall|i: int, j: int| 0 <= i < j < pre.len() ==> (#[trigger] pre[i].story_id@) != (
        #[trigger] pre[j].story_id@)) ==> forall|j: int| 0 <= j < pre.len()
            ==> spec_iterated_entry(pre[j], #[trigger] post[j], current, input, output),
{
    if forall|i: int, j: int| 0 <= i < j < pre.len() ==> (#[trigger] pre[i].story_id@) != (
    #[trigger] pre[j].story_id@) {
        assert forall|j: int| 0 <= j < pre.len() implies spec_iterated_entry(
            pre[j],
            #[trigger] post[j],
            current,
            input,
            output,
        ) by {
            if j != k {
                assert(pre[j].story_id@ != pre[k].story_id@);
                assert(post[j] == pre[j]);
            }
        }
    }
}

/// The sum of the tracked stories' input tokens.
pub open spec fn spec_story_input_sum(s: Seq<StoryBudget>) -> int
    decreases s.len(),
{
    if s.len() == 0 {
        0
    } else {
        spec_story_input_sum(s.drop_last()) + s.last().input_tokens
    }
}

/// The sum of the tracked stories' output tokens.
pub open spec fn spec_story_output_sum(s: Seq<StoryBudget>) -> int
    decreases s.len(),
{
    if s.len() == 0 {
        0
    } else {
        spec_story_output_sum(s.drop_last()) + s.last().output_tokens
    }
}

proof fn lemma_entry_le_sums(s: Seq<StoryBudget>, j: int)
    requires
        0 <= j < s.len(),
    ensures
        s[j].input_tokens <= spec_story_input_sum(s),
        s[j].output_tokens <= spec_story_output_sum(s),
    decreases s.len(),
{
    if j == s.len() - 1 {
        lemma_sums_nonneg(s.drop_last());
    } else {
        lemma_entry_le_sums(s.drop_last(), j);
        assert(s.drop_last()[j] == s[j]);
    }
}

proof fn lemma_sums_nonneg(s: Seq<StoryBudget>)
    ensures
        spec_story_input_sum(s) >= 0,
        spec_story_output_sum(s) >= 0,
    decreases s.len(),
{
    if s.len() > 0 {
        lemma_sums_nonneg(s.drop_last());
    }
}

proof fn lemma_sum_recorded(
    pre: Seq<StoryBudget>,
    post: Seq<StoryBudget>,
    current: Option<String>,
    input: int,
    output: int,
)
    requires
        pre.len() == post.len(),
        input >= 0,
        output >= 0,
        forall|j: int| 0 <= j < pre.len() ==> spec_recorded_entry(
            pre[j],
            #[trigger] post[j],
            current,
            input,
            output,
        ),
        forall|j: int| 0 <= j < pre.len() ==> (#[trigger] pre[j]).input_tokens + input
            <= u64::MAX,
        forall|j: int| 0 <= j < pre.len() ==> (#[trigger] pre[j]).output_tokens + output
            <= u64::MAX,
        forall|i: int, j: int| 0 <= i < j < pre.len() ==> (#[trigger] pre[i].story_id@) != (
        #[trigger] pre[j].story_id@),
    ensures
        spec_story_input_sum(post) <= spec_story_input_sum(pre) + input,
        spec_story_output_sum(post) <= spec_story_output_sum(pre) + output,
    decreases pre.len(),
{
    if pre.len() > 0 {
        lemma_sum_recorded(pre.drop_last(), post.drop_last(), current, input, output);
        assert forall|j: int| 0 <= j < pre.drop_last().len() implies spec_recorded_entry(
            pre.drop_last()[j],
            #[trigger] post.drop_last()[j],
            current,
            input,
            output,
        ) by {
            assert(pre.drop_last()[j] == pre[j]);
            assert(post.drop_last()[j] == post[j]);
        }
        let l = pre.len() - 1;
        assert(spec_recorded_entry(pre[l], post[l], current, input, output));
        if post.last().input_tokens == pre.last().input_tokens && post.last().output_tokens
            == pre.last().output_tokens {
        } else {
            assert(post.last().input_tokens <= pre.last().input_tokens + input);
            assert(post.last().output_tokens <= pre.last().output_tokens + output);
            // Any other changed entry would share the current story id.
            assert forall|j: int| 0 <= j < l implies #[trigger] post.drop_last()[j]
                == pre.drop_last()[j] by {
                assert(pre[j].story_id@ != pre[l].story_id@);
                assert(spec_recorded_entry(pre[j], post[j], current, input, output));
            }
            lemma_sum_unchanged(pre.drop_last(), post.drop_last());
        }
    }
}

proof fn lemma_sum_unchanged(pre: Seq<StoryBudget>, post: Seq<StoryBudget>)
    requires
        pre.len() == post.len(),
        forall|j: int| 0 <= j < pre.len() ==> #[trigger] post[j] == pre[j],
    ensures
        spec_story_input_sum(post) == spec_story_input_sum(pre),
        spec_story_output_sum(post) == spec_story_output_sum(pre),
    decreases pre.len(),
{
    if pre.len() > 0 {
        assert forall|j: int| 0 <= j < pre.drop_last().len() implies #[trigger] post.drop_last()[
            j
        ] == pre.drop_last()[j] by {
            assert(pre.drop_last()[j] == pre[j]);
            assert(post.drop_last()[j] == post[j]);
        }
        lemma_sum_unchanged(pre.drop_last(), post.drop_last());
        assert(post.last() == pre.last());
    }
}

/// While the run totals do not saturate, one recording keeps the
/// per-story token sums at or under the run totals.
pub proof fn lemma_story_sums_preserved(
    pre: TokenBudget,
    post: TokenBudget,
    input: u64,
    output: u64,
)
    requires
        pre.wf(),
        post.story_budgets@.len() == pre.story_budgets@.len(),
        forall|j: int| 0 <= j < pre.story_budgets@.len() ==> spec_recorded_entry(
            pre.story_budgets@[j],
            #[trigger] post.story_budgets@[j],
            pre.current_story_id,
            input as int,
            output as int,
        ),
        post.total_input_tokens == sat_add(pre.total_input_tokens as int, input as int),
        post.total_output_tokens == sat_add(pre.total_output_tokens as int, output as int),
        spec_story_input_sum(pre.story_budgets@) <= pre.total_input_tokens,
        spec_story_output_sum(pre.story_budgets@) <= pre.total_output_tokens,
        pre.total_input_tokens + input <= u64::MAX,
        pre.total_output_tokens + output <= u64::MAX,
    ensures
        spec_story_input_sum(post.story_budgets@) <= post.total_input_tokens,
        spec_story_output_sum(post.story_budgets@) <= post.total_output_tokens,
{
    assert forall|j: int| 0 <= j < pre.story_budgets@.len() implies (
    #[trigger] pre.story_budgets@[j]).input_tokens + input <= u64::MAX by {
        lemma_entry_le_sums(pre.story_budgets@, j);
    }
    assert forall|j: int| 0 <= j < pre.story_budgets@.len() implies (
    #[trigger] pre.story_budgets@[j]).output_tokens + output <= u64::MAX by {
        lemma_entry_le_sums(pre.story_budgets@, j);
    }
    lemma_sum_recorded(
        pre.story_budgets@,
        post.story_budgets@,
        pre.current_story_id,
        input as int,
        output as int,
    );
}

impl TokenBudget {
    /// A new tracker with the default estimator.
    pub fn new(config: TokenBudgetConfig) -> (r: Self)
        ensures
            r.config == config,
            r.total_input_tokens == 0,
            r.total_output_tokens == 0,
            r.story_budgets@.len() == 0,
            r.current_story_id is None,
            r.total_cost_millicents == 0,
    {
        TokenBudget {
            config,
            estimator: TokenEstimator::default(),
            total_input_tokens: 0,
            total_output_tokens: 0,
            story_budgets: Vec::new(),
            current_story_id: None,
            total_cost_millicents: 0,
        }
    }

    /// A new tracker with a custom estimator.
    pub fn with_estimator(config: TokenBudgetConfig, estimator: TokenEstimator) -> (r: Self)
        ensures
            r.config == config,
            r.estimator == estimator,
            r.total_input_tokens == 0,
            r.total_output_tokens == 0,
            r.story_budgets@.len() == 0,
            r.current_story_id is None,
            r.total_cost_millicents == 0,
    {
        TokenBudget {
            config,
            estimator,
            total_input_tokens: 0,
            total_output_tokens: 0,
            story_budgets: Vec::new(),
            current_story_id: None,
            total_cost_millicents: 0,
        }
    }

    /// Start tracking a new story under the configured story budget.
    pub fn start_story(&mut self, story_id: String)
        ensures
            old(self).wf() ==> final(self).wf(),
            final(self).current_story_id == Some(story_id),
            final(self).story_budgets@.len() <= old(self).story_budgets@.len() + 1,
            final(self).story_budgets@.len() >= old(self).story_budgets@.len(),
            exists|k: int|
                #![trigger final(self).story_budgets@[k]]
                0 <= k < final(self).story_budgets@.len() && final(self).story_budgets@[
                    k
                ].story_id@ == story_id@ && final(self).story_budgets@[k].input_tokens == 0
                    && final(self).story_budgets@[k].output_tokens == 0
                    && final(self).story_budgets@[k].budget_limit == old(
                    self,
                ).config.story_budget,
            final(self).total_input_tokens == old(self).total_input_tokens,
            final(self).total_output_tokens == old(self).total_output_tokens,
            final(self).total_cost_millicents == old(self).total_cost_millicents,
            final(self).config == old(self).config,
    {
        let limit = self.config.story_budget;
        let ghost sid = story_id@;
        let budget = StoryBudget::new(story_id.clone(), limit);
        let ghost mut chosen: int = 0;
        // A story started again replaces its earlier tracking entry, so
        // each story has one entry.
        match self.current_index_of(story_id.as_str()) {
            Some(k) => {
                let slot = &mut self.story_budgets[k];
                *slot = budget;
                proof {
                    chosen = k as int;
                }
            },
            None => {
                self.story_budgets.push(budget);
                proof {
                    chosen = self.story_budgets@.len() - 1;
                }
            },
        }
        self.current_story_id = Some(story_id);
        proof {
            assert(0 <= chosen < self.story_budgets@.len());
            assert(self.story_budgets@[chosen].story_id@ == sid
                && self.story_budgets@[chosen].input_tokens == 0
                && self.story_budgets@[chosen].output_tokens == 0
                && self.story_budgets@[chosen].budget_limit == limit);
        }
    }

    /// The index of the entry tracking `id`, if one exists.
    fn current_index_of(&self, id: &str) -> (r: Option<usize>)
        ensures
            match r {
                Some(k) => k < self.story_budgets@.len() && self.story_budgets@[
                    k as int
                ].story_id@ == id@,
                None => forall|j: int| 0 <= j < self.story_budgets@.len() ==> (
                #[trigger] self.story_budgets@[j].story_id@) != id@,
            },
    {
        let mut k: usize = 0;
        while k < self.story_budgets.len()
            invariant
                k <= self.story_budgets@.len(),
                forall|j: int| 0 <= j < k ==> (#[trigger] self.story_budgets@[j].story_id@)
                    != id@,
            decreases self.story_budgets@.len() - k,
        {
            if crate::text::str_eq(self.story_budgets[k].story_id.as_str(), id) {
                return Some(k);
            }
            k += 1;
        }
        None
    }

    /// Stop tracking the current story.
    pub fn finish_story(&mut self)
        ensures
            *final(self) == (TokenBudget { current_story_id: None, ..*old(self) }),
    {
        self.current_story_id = None;
    }

    /// The index of the most recently started story with the current id.
    fn current_story_index(&self) -> (r: Option<usize>)
        ensures
            match r {
                Some(k) => {
                    &&& k < self.story_budgets@.len()
                    &&& self.current_story_id matches Some(id) && self.story_budgets@[
                        k as int
                    ].story_id@ == id@
                },
                None => self.current_story_id matches Some(id) ==> forall|j: int|
                    0 <= j < self.story_budgets@.len() ==> (#[trigger] self.story_budgets@[
                        j
                    ].story_id@) != id@,
            },
    {
        match &self.current_story_id {
            None => None,
            Some(id) => self.current_index_of(id.as_str()),
        }
    }

    /// The current story's budget, if a story is being tracked.
    pub fn current_story(&self) -> (r: Option<&StoryBudget>)
        ensures
            match r {
                Some(b) => self.current_story_id matches Some(id) && b.story_id@ == id@,
                None => true,
            },
    {
        match self.current_story_index() {
            Some(k) => Some(&self.story_budgets[k]),
            None => None,
        }
    }

    /// Record estimated tokens for a prompt.
    pub fn record_prompt(&mut self, prompt: &str)
        ensures
            old(self).wf() ==> final(self).wf(),
            final(self).total_input_tokens == sat_add(
                old(self).total_input_tokens as int,
                spec_estimate(old(self).estimator, prompt@.len() as int, word_count_of(prompt@) as int),
            ),
            final(self).total_output_tokens == old(self).total_output_tokens,
            final(self).config == old(self).config,
    {
        let tokens = self.estimator.estimate(prompt);
        self.record_input_tokens(tokens);
    }

    /// Record estimated tokens for an output.
    pub fn record_output(&mut self, output: &str)
        ensures
            old(self).wf() ==> final(self).wf(),
            final(self).total_output_tokens == sat_add(
                old(self).total_output_tokens as int,
                spec_estimate(old(self).estimator, output@.len() as int, word_count_of(output@) as int),
            ),
            final(self).total_input_tokens == old(self).total_input_tokens,
            final(self).config == old(self).config,
    {
        let tokens = self.estimator.estimate(output);
        self.record_output_tokens(tokens);
    }

    /// Record input tokens directly.
    pub fn record_input_tokens(&mut self, tokens: u64)
        ensures
            final(self).story_budgets@.len() == old(self).story_budgets@.len(),
            old(self).wf() ==> final(self).wf(),
            old(self).wf() ==> forall|j: int| 0 <= j < old(self).story_budgets@.len()
                ==> spec_recorded_entry(
                old(self).story_budgets@[j],
                #[trigger] final(self).story_budgets@[j],
                old(self).current_story_id,
                tokens as int,
                0,
            ),
            final(self).total_input_tokens == sat_add(old(self).total_input_tokens as int, tokens as int),
            final(self).total_output_tokens == old(self).total_output_tokens,
            final(self).total_input_tokens >= old(self).total_input_tokens,
            final(self).total_cost_millicents >= old(self).total_cost_millicents,
            final(self).config == old(self).config,
            final(self).estimator == old(self).estimator,
    {
        self.total_input_tokens = sat_add_u64(self.total_input_tokens, tokens);
        let idx = self.current_story_index();
        let ghost pre = self.story_budgets@;
        if let Some(k) = idx {
            let story = &mut self.story_budgets[k];
            story.input_tokens = sat_add_u64(story.input_tokens, tokens);
            proof {
                lemma_recorded_at(pre, self.story_budgets@, k as int, self.current_story_id, tokens as int, 0);
            }
        }
        self.update_cost(tokens, 0);
    }

    /// Record output tokens directly.
    pub fn record_output_tokens(&mut self, tokens: u64)
        ensures
            final(self).story_budgets@.len() == old(self).story_budgets@.len(),
            old(self).wf() ==> final(self).wf(),
            old(self).wf() ==> forall|j: int| 0 <= j < old(self).story_budgets@.len()
                ==> spec_recorded_entry(
                old(self).story_budgets@[j],
                #[trigger] final(self).story_budgets@[j],
                old(self).current_story_id,
                0,
                tokens as int,
            ),
            final(self).total_output_tokens == sat_add(old(self).total_output_tokens as int, tokens as int),
            final(self).total_input_tokens == old(self).total_input_tokens,
            final(self).total_output_tokens >= old(self).total_output_tokens,
            final(self).total_cost_millicents >= old(self).total_cost_millicents,
            final(self).config == old(self).config,
            final(self).estimator == old(self).estimator,
    {
        self.total_output_tokens = sat_add_u64(self.total_output_tokens, tokens);
        let idx = self.current_story_index();
        let ghost pre = self.story_budgets@;
        if let Some(k) = idx {
            let story = &mut self.story_budgets[k];
            story.output_tokens = sat_add_u64(story.output_tokens, tokens);
            proof {
                lemma_recorded_at(pre, self.story_budgets@, k as int, self.current_story_id, 0, tokens as int);
            }
        }
        self.update_cost(0, tokens);
    }

    /// Record a complete iteration of input and output tokens.
    pub fn record_iteration(&mut self, input: u64, output: u64)
        ensures
            final(self).story_budgets@.len() == old(self).story_budgets@.len(),
            old(self).wf() ==> final(self).wf(),
            old(self).wf() ==> forall|j: int| 0 <= j < old(self).story_budgets@.len()
                ==> spec_recorded_entry(
                old(self).story_budgets@[j],
                #[trigger] final(self).story_budgets@[j],
                old(self).current_story_id,
                input as int,
                output as int,
            ),
            old(self).wf() ==> forall|j: int| 0 <= j < old(self).story_budgets@.len()
                ==> spec_iterated_entry(
                old(self).story_budgets@[j],
                #[trigger] final(self).story_budgets@[j],
                old(self).current_story_id,
                input,
                output,
            ),
            final(self).total_input_tokens == sat_add(old(self).total_input_tokens as int, input as int),
            final(self).total_output_tokens == sat_add(old(self).total_output_tokens as int, output as int),
            final(self).total_input_tokens >= old(self).total_input_tokens,
            final(self).total_output_tokens >= old(self).total_output_tokens,
            final(self).total_cost_millicents >= old(self).total_cost_millicents,
            final(self).config == old(self).config,
            final(self).estimator == old(self).estimator,
            final(self).current_story_id == old(self).current_story_id,
    {
        self.total_input_tokens = sat_add_u64(self.total_input_tokens, input);
        self.total_output_tokens = sat_add_u64(self.total_output_tokens, output);
        let idx = self.current_story_index();
        let ghost pre = self.story_budgets@;
        if let Some(k) = idx {
            let story = &mut self.story_budgets[k];
            story.record_iteration(TokenCount::new(input, output));
            proof {
                lemma_recorded_at(pre, self.story_budgets@, k as int, self.current_story_id, input as int, output as int);
                lemma_iterated_at(pre, self.story_budgets@, k as int, self.current_story_id, input, output);
            }
        }
        self.update_cost(input, output);
    }

    /// Record an interaction, estimating tokens from its text.
    pub fn record_interaction(&mut self, prompt: &str, output: &str)
        ensures
            old(self).wf() ==> final(self).wf(),
            final(self).total_input_tokens >= old(self).total_input_tokens,
            final(self).total_output_tokens >= old(self).total_output_tokens,
            final(self).total_cost_millicents >= old(self).total_cost_millicents,
            final(self).config == old(self).config,
    {
        let count = self.estimator.estimate_interaction(prompt, output);
        self.record_iteration(count.input_tokens, count.output_tokens);
    }

    /// Accumulate the cost of newly recorded tokens.
    fn update_cost(&mut self, input_tokens: u64, output_tokens: u64)
        ensures
            *final(self) == (TokenBudget {
                total_cost_millicents: (sat_add(
                    old(self).total_cost_millicents as int,
                    spec_cost(
                        input_tokens as int,
                        output_tokens as int,
                        old(self).config.cost_settings.input_cost_per_1k as int,
                        old(self).config.cost_settings.output_cost_per_1k as int,
                    ),
                ) as u64),
                ..*old(self)
            }),
            final(self).total_cost_millicents >= old(self).total_cost_millicents,
    {
        let c = self.config.cost_settings.calculate_cost(input_tokens, output_tokens);
        self.total_cost_millicents = sat_add_u64(self.total_cost_millicents, c);
    }

    /// Total tokens used across all stories, saturating.
    pub fn total_tokens(&self) -> (r: u64)
        ensures
            r == sat_add(self.total_input_tokens as int, self.total_output_tokens as int),
    {
        sat_add_u64(self.total_input_tokens, self.total_output_tokens)
    }

    /// Total cost incurred, in millicents.
    pub fn total_cost(&self) -> (r: u64)
        ensures
            r == self.total_cost_millicents,
    {
        self.total_cost_millicents
    }

    /// Remaining total budget; `u64::MAX` when unlimited.
    pub fn total_remaining(&self) -> (r: u64)
        ensures
            r == spec_remaining(
                sat_add(self.total_input_tokens as int, self.total_output_tokens as int),
                self.config.total_budget as int,
            ),
    {
        if self.config.total_budget == 0 {
            u64::MAX
        } else {
            let t = self.total_tokens();
            if self.config.total_budget >= t {
                self.config.total_budget - t
            } else {
                0
            }
        }
    }

    /// Pairwise distinct story ids among the tracked story budgets.
    pub open spec fn wf(&self) -> bool {
        forall|i: int, j: int| 0 <= i < j < self.story_budgets@.len() ==> (
        #[trigger] self.story_budgets@[i].story_id@) != (#[trigger] self.story_budgets@[
            j
        ].story_id@)
    }

    /// The status view of this tracker's current story usage: the tracked
    /// entry's usage against its limit, or zero usage without one.
    pub open spec fn spec_story_status(&self) -> BudgetStatus {
        let warn = self.config.warning_threshold_permille as int;
        let crit = self.config.critical_threshold_permille as int;
        match self.current_story_id {
            None => spec_status(0, 0, warn, crit),
            Some(id) => match story_index_of(self.story_budgets@, id@) {
                Some(k) => spec_status(
                    sat_add(
                        self.story_budgets@[k].input_tokens as int,
                        self.story_budgets@[k].output_tokens as int,
                    ),
                    self.story_budgets@[k].budget_limit as int,
                    warn,
                    crit,
                ),
                None => spec_status(0, 0, warn, crit),
            },
        }
    }

    /// The remaining-token view of the current story: the tracked entry's
    /// remaining budget, or `u64::MAX` without one.
    pub open spec fn spec_story_remaining(&self) -> int {
        match self.current_story_id {
            None => u64::MAX as int,
            Some(id) => match story_index_of(self.story_budgets@, id@) {
                Some(k) => spec_remaining(
                    sat_add(
                        self.story_budgets@[k].input_tokens as int,
                        self.story_budgets@[k].output_tokens as int,
                    ),
                    self.story_budgets@[k].budget_limit as int,
                ),
                None => u64::MAX as int,
            },
        }
    }

    /// Whether the current story can continue: no dimension both exceeded
    /// and armed to abort (the cost dimension aborts whenever it is capped).
    pub open spec fn spec_can_continue_story(&self) -> bool {
        !((self.spec_story_status() == BudgetStatus::Exceeded
            && self.config.abort_on_story_budget_exceeded) || (self.spec_total_status()
            == BudgetStatus::Exceeded && self.config.abort_on_total_budget_exceeded) || (
        self.spec_cost_status() == BudgetStatus::Exceeded && self.config.max_cost_millicents > 0))
    }

    /// The status view of this tracker's total usage.
    pub open spec fn spec_total_status(&self) -> BudgetStatus {
        spec_status(
            sat_add(self.total_input_tokens as int, self.total_output_tokens as int),
            self.config.total_budget as int,
            self.config.warning_threshold_permille as int,
            self.config.critical_threshold_permille as int,
        )
    }

    /// The status view of this tracker's cost usage.
    pub open spec fn spec_cost_status(&self) -> BudgetStatus {
        if self.config.max_cost_millicents == 0 {
            BudgetStatus::Normal
        } else {
            spec_status(
                self.total_cost_millicents as int,
                self.config.max_cost_millicents as int,
                self.config.warning_threshold_permille as int,
                self.config.critical_threshold_permille as int,
            )
        }
    }

    /// Remaining budget of the current story; `u64::MAX` without one.
    pub fn story_remaining(&self) -> (r: u64)
        requires
            self.wf(),
        ensures
            r == self.spec_story_remaining(),
    {
        match self.current_story_index() {
            Some(k) => {
                proof {
                    self.lemma_current_lookup(k as int);
                }
                self.story_budgets[k].remaining()
            },
            None => {
                proof {
                    self.lemma_current_lookup_none();
                }
                u64::MAX
            },
        }
    }

    /// The found index is the looked-up one, by id uniqueness.
    proof fn lemma_current_lookup(&self, k: int)
        requires
            self.wf(),
            0 <= k < self.story_budgets@.len(),
            self.current_story_id matches Some(id) && self.story_budgets@[k].story_id@ == id@,
        ensures
            self.current_story_id matches Some(id) && story_index_of(self.story_budgets@, id@)
                == Some(k),
    {
        let id = self.current_story_id.unwrap();
        assert(story_index_of(self.story_budgets@, id@) is Some);
        let c = choose|i: int|
            0 <= i < self.story_budgets@.len() && (#[trigger] self.story_budgets@[i].story_id@)
                == id@;
        assert(c == k);
    }

    /// A missed lookup means no entry carries the current id.
    proof fn lemma_current_lookup_none(&self)
        requires
            self.current_story_id matches Some(id) ==> forall|j: int|
                0 <= j < self.story_budgets@.len() ==> (#[trigger] self.story_budgets@[
                    j
                ].story_id@) != id@,
        ensures
            self.current_story_id matches Some(id) ==> story_index_of(self.story_budgets@, id@)
                is None,
    {
    }

    /// Budget status of the current story.
    pub fn story_status(&self) -> (r: BudgetStatus)
        requires
            self.wf(),
        ensures
            r == self.spec_story_status(),
    {
        let warn = self.config.warning_threshold_permille;
        let crit = self.config.critical_threshold_permille;
        match self.current_story_index() {
            Some(k) => {
                proof {
                    self.lemma_current_lookup(k as int);
                }
                let b = &self.story_budgets[k];
                status_of(b.total_tokens(), b.budget_limit, warn, crit)
            },
            None => {
                proof {
                    self.lemma_current_lookup_none();
                }
                status_of(0, 0, warn, crit)
            },
        }
    }

    /// Budget status of the total usage.
    pub fn total_status(&self) -> (r: BudgetStatus)
        ensures
            r == self.spec_total_status(),
    {
        status_of(
            self.total_tokens(),
            self.config.total_budget,
            self.config.warning_threshold_permille,
            self.config.critical_threshold_permille,
        )
    }

    /// Budget status of the cost dimension; `Ok` when no cost cap is set.
    pub fn cost_status(&self) -> (r: BudgetStatus)
        ensures
            r == self.spec_cost_status(),
    {
        if self.config.max_cost_millicents == 0 {
            return BudgetStatus::Normal;
        }
        status_of(
            self.total_cost_millicents,
            self.config.max_cost_millicents,
            self.config.warning_threshold_permille,
            self.config.critical_threshold_permille,
        )
    }

    /// Whether execution can continue at all.
    pub fn can_continue(&self) -> (r: bool)
        requires
            self.wf(),
        ensures
            r == self.spec_can_continue_story(),
    {
        self.can_continue_story()
    }

    /// Whether the current story can continue: false exactly when a
    /// dimension is exceeded and its abort flag (or, for cost, a cost cap)
    /// is set.
    pub fn can_continue_story(&self) -> (r: bool)
        requires
            self.wf(),
        ensures
            r == self.spec_can_continue_story(),
    {
        let story_status = self.story_status();
        let total_status = self.total_status();
        let cost_status = self.cost_status();
        if matches!(story_status, BudgetStatus::Exceeded)
            && self.config.abort_on_story_budget_exceeded {
            return false;
        }
        if matches!(total_status, BudgetStatus::Exceeded)
            && self.config.abort_on_total_budget_exceeded {
            return false;
        }
        if matches!(cost_status, BudgetStatus::Exceeded) && self.config.max_cost_millicents > 0 {
            return false;
        }
        true
    }

    /// Perform the full budget enforcement check.
    ///
    /// `can_continue` is false exactly when a dimension is exceeded and its
    /// abort flag (or, for cost, a cost cap) is set; a stop reason is then
    /// given.
    pub fn enforce(&self) -> (r: BudgetEnforcement)
        requires
            self.wf(),
        ensures
            r.story_status == self.spec_story_status(),
            r.total_status == self.spec_total_status(),
            r.cost_status == self.spec_cost_status(),
            r.can_continue == self.spec_can_continue_story(),
            r.can_continue == !((r.story_status == BudgetStatus::Exceeded
                && self.config.abort_on_story_budget_exceeded) || (r.total_status
                == BudgetStatus::Exceeded && self.config.abort_on_total_budget_exceeded) || (
            r.cost_status == BudgetStatus::Exceeded && self.config.max_cost_millicents > 0)),
            r.stop_reason is Some <==> !r.can_continue,
    {
        let story_status = self.story_status();
        let total_status = self.total_status();
        let cost_status = self.cost_status();
        let story_remaining = self.story_remaining();
        let total_remaining = self.total_remaining();
        let cost_remaining: u64 = if self.config.max_cost_millicents > 0 {
            if self.config.max_cost_millicents >= self.total_cost_millicents {
                self.config.max_cost_millicents - self.total_cost_millicents
            } else {
                0
            }
        } else {
            u64::MAX
        };

        let mut stop_reason: Option<String> = None;
        let mut can_continue = true;

        if matches!(story_status, BudgetStatus::Exceeded)
            && self.config.abort_on_story_budget_exceeded {
            let used = match self.current_story() {
                Some(b) => b.total_tokens(),
                None => 0,
            };
            let mut msg = String::from_str("Story budget exceeded: ");
            push_dec(&mut msg, used);
            msg.append("/");
            push_dec(&mut msg, self.config.story_budget);
            msg.append(" tokens");
            stop_reason = Some(msg);
            can_continue = false;
        }
        if matches!(total_status, BudgetStatus::Exceeded)
            && self.config.abort_on_total_budget_exceeded {
            let mut msg = String::from_str("Total budget exceeded: ");
            push_dec(&mut msg, self.total_tokens());
            msg.append("/");
            push_dec(&mut msg, self.config.total_budget);
            msg.append(" tokens");
            stop_reason = Some(msg);
            can_continue = false;
        }
        if matches!(cost_status, BudgetStatus::Exceeded) && self.config.max_cost_millicents > 0 {
            let mut msg = String::from_str("Cost budget exceeded: ");
            push_dollars(&mut msg, self.total_cost_millicents);
            msg.append("/");
            push_dollars(&mut msg, self.config.max_cost_millicents);
            stop_reason = Some(msg);
            can_continue = false;
        }

        let recommendation = if !can_continue {
            String::from_str("Stop execution and review budget settings")
        } else if matches!(story_status, BudgetStatus::Critical)
            || matches!(total_status, BudgetStatus::Critical) {
            String::from_str("Switch to minimal prompt strategy to conserve tokens")
        } else if matches!(story_status, BudgetStatus::Warning)
            || matches!(total_status, BudgetStatus::Warning) {
            String::from_str("Consider reducing context in prompts")
        } else {
            String::from_str("Continue normal execution")
        };

        BudgetEnforcement {
            can_continue,
            story_status,
            total_status,
            cost_status,
            stop_reason,
            recommendation,
            story_remaining,
            total_remaining,
            cost_remaining,
        }
    }

    /// A summary of budget usage.
    pub fn summary(&self) -> (r: BudgetSummary)
        requires
            self.wf(),
        ensures
            r.story_status == self.spec_story_status(),
            r.total_input_tokens == self.total_input_tokens,
            r.total_output_tokens == self.total_output_tokens,
            r.total_tokens == sat_add(self.total_input_tokens as int, self.total_output_tokens as int),
            r.total_cost_millicents == self.total_cost_millicents,
            r.stories_tracked == self.story_budgets@.len(),
            r.current_story_id == self.current_story_id,
            r.story_budget_limit == self.config.story_budget,
            r.total_budget_limit == self.config.total_budget,
            r.cost_limit_millicents == self.config.max_cost_millicents,
            r.total_status == self.spec_total_status(),
            r.cost_status == self.spec_cost_status(),
    {
        BudgetSummary {
            total_input_tokens: self.total_input_tokens,
            total_output_tokens: self.total_output_tokens,
            total_tokens: self.total_tokens(),
            total_cost_millicents: self.total_cost_millicents,
            stories_tracked: self.story_budgets.len(),
            current_story_id: self.current_story_id.clone(),
            story_budget_limit: self.config.story_budget,
            total_budget_limit: self.config.total_budget,
            cost_limit_millicents: self.config.max_cost_millicents,
            story_status: self.story_status(),
            total_status: self.total_status(),
            cost_status: self.cost_status(),
        }
    }

    /// The configuration in force.
    pub fn config(&self) -> (r: &TokenBudgetConfig)
        ensures
            r == self.config,
    {
        &self.config
    }

    /// All story budgets tracked so far.
    pub fn story_budgets(&self) -> (r: &Vec<StoryBudget>)
        ensures
            r == self.story_budgets,
    {
        &self.story_budgets
    }
}

/// Append `millicents` as a dollar amount with four decimals, e.g. `$0.0018`.
fn push_dollars(s: &mut String, millicents: u64)
    ensures
        final(s)@ == old(s)@ + dollars_chars(millicents as int),
{
    proof {
        reveal_strlit("$");
        reveal_strlit(".");
    }
    let dollars: u64 = millicents / 100_000;
    let frac: u64 = millicents % 100_000 / 10;
    s.append("$");
    push_dec(s, dollars);
    s.append(".");
    push_frac4(s, frac);
    proof {
        assert(s@ =~= old(s)@ + dollars_chars(millicents as int));
    }
}

/// The dollar rendering of a millicent amount: `$`, whole dollars, `.`, and
/// four fractional digits.
pub open spec fn dollars_chars(millicents: int) -> Seq<char> {
    seq!['$'] + dec_chars(millicents / 100_000) + seq!['.'] + frac4_chars(
        millicents % 100_000 / 10,
    )
}

/// Four zero-padded decimal digits for `n < 10000`.
pub open spec fn frac4_chars(n: int) -> Seq<char> {
    seq![
        crate::text::dec_digit(n / 1000 % 10),
        crate::text::dec_digit(n / 100 % 10),
        crate::text::dec_digit(n / 10 % 10),
        crate::text::dec_digit(n % 10),
    ]
}

/// Append four zero-padded decimal digits for `n < 10000`.
fn push_frac4(s: &mut String, n: u64)
    requires
        n < 10000,
    ensures
        final(s)@ == old(s)@ + frac4_chars(n as int),
{
    crate::text::push_digit(s, n / 1000 % 10);
    crate::text::push_digit(s, n / 100 % 10);
    crate::text::push_digit(s, n / 10 % 10);
    crate::text::push_digit(s, n % 10);
    proof {
        assert(s@ =~= old(s)@ + frac4_chars(n as int));
    }
}

/// Summary of budget usage.
#[derive(Clone, Debug)]
pub struct BudgetSummary {
    pub total_input_tokens: u64,
    pub total_output_tokens: u64,
    pub total_tokens: u64,
    pub total_cost_millicents: u64,
    pub stories_tracked: usize,
    pub current_story_id: Option<String>,
    pub story_budget_limit: u64,
    pub total_budget_limit: u64,
    pub cost_limit_millicents: u64,
    pub story_status: BudgetStatus,
    pub total_status: BudgetStatus,
    pub cost_status: BudgetStatus,
}

/// The display label of a budget status.
pub fn format_status(status: BudgetStatus) -> (r: &'static str)
    ensures
        status == BudgetStatus::Normal ==> r@ == "OK"@,
        status == BudgetStatus::Warning ==> r@ == "WARNING"@,
        status == BudgetStatus::Critical ==> r@ == "CRITICAL"@,
        status == BudgetStatus::Exceeded ==> r@ == "EXCEEDED"@,
{
    match status {
        BudgetStatus::Normal => "OK",
        BudgetStatus::Warning => "WARNING",
        BudgetStatus::Critical => "CRITICAL",
        BudgetStatus::Exceeded => "EXCEEDED",
    }
}

impl BudgetSummary {
    /// A human-readable rendering of the summary.
    pub fn format(&self) -> (r: String)
    {
        let mut out = String::from_str("## Token Budget Summary\n\n");
        out.append("**Tokens Used**: ");
        push_dec(&mut out, self.total_tokens);
        out.append(" (");
        push_dec(&mut out, self.total_input_tokens);
        out.append(" input, ");
        push_dec(&mut out, self.total_output_tokens);
        out.append(" output)\n");

        if self.total_budget_limit > 0 {
            out.append("**Total Budget**: ");
            push_dec(&mut out, self.total_tokens);
            out.append("/");
            push_dec(&mut out, self.total_budget_limit);
            out.append(" [");
            out.append(format_status(self.total_status));
            out.append("]\n");
        }
        if self.story_budget_limit > 0 {
            out.append("**Story Budget**: ");
            push_dec(&mut out, self.story_budget_limit);
            out.append(" per story [");
            out.append(format_status(self.story_status));
            out.append("]\n");
        }
        if self.cost_limit_millicents > 0 {
            out.append("**Cost**: ");
            push_dollars(&mut out, self.total_cost_millicents);
            out.append("/");
            push_dollars(&mut out, self.cost_limit_millicents);
            out.append(" [");
            out.append(format_status(self.cost_status));
            out.append("]\n");
        } else {
            out.append("**Estimated Cost**: ");
            push_dollars(&mut out, self.total_cost_millicents);
            out.append("\n");
        }
        out.append("**Stories Tracked**: ");
        push_dec(&mut out, self.stories_tracked as u64);
        out.append("\n");
        if let Some(story_id) = &self.current_story_id {
            out.append("**Current Story**: ");
            out.append(story_id.as_str());
            out.append("\n");
        }
        out
    }
}

} // verus!
