//! Token budget configuration.
//!
//! Costs are tracked in millicents (thousandths of a cent) and thresholds in
//! per-mille (thousandths of the budget), so that every budget rule is exact
//! integer arithmetic.

use vstd::prelude::*;

verus! {

/// Cost per 1000 tokens, in millicents, for one model.
#[derive(Clone, Debug)]
pub struct TokenCost {
    /// Cost per 1K input tokens (millicents).
    pub input_cost_per_1k: u64,
    /// Cost per 1K output tokens (millicents).
    pub output_cost_per_1k: u64,
    /// Model name for reference.
    pub model_name: String,
}

/// The cost of `input` input tokens and `output` output tokens at the given
/// per-1K rates, in millicents, saturating at `u64::MAX`.
pub open spec fn spec_cost(input: int, output: int, in_rate: int, out_rate: int) -> int {
    let c = input * in_rate / 1000 + output * out_rate / 1000;
    if c <= u64::MAX {
        c
    } else {
        u64::MAX as int
    }
}

impl TokenCost {
    /// Default pricing: 300 millicents per 1K input, 1500 per 1K output.
    pub fn new_default() -> (r: Self)
        ensures
            r.input_cost_per_1k == 300,
            r.output_cost_per_1k == 1500,
    {
        TokenCost {
            input_cost_per_1k: 300,
            output_cost_per_1k: 1500,
            model_name: String::from_str("standard"),
        }
    }

    /// Pricing for a cheaper model.
    pub fn haiku() -> (r: Self)
        ensures
            r.input_cost_per_1k == 25,
            r.output_cost_per_1k == 125,
    {
        TokenCost {
            input_cost_per_1k: 25,
            output_cost_per_1k: 125,
            model_name: String::from_str("compact"),
        }
    }

    /// Pricing for a more expensive model.
    pub fn opus() -> (r: Self)
        ensures
            r.input_cost_per_1k == 1500,
            r.output_cost_per_1k == 7500,
    {
        TokenCost {
            input_cost_per_1k: 1500,
            output_cost_per_1k: 7500,
            model_name: String::from_str("premium"),
        }
    }

    /// The cost of the given token counts, in millicents.
    pub fn calculate_cost(&self, input_tokens: u64, output_tokens: u64) -> (r: u64)
        ensures
            r == spec_cost(
                input_tokens as int,
                output_tokens as int,
                self.input_cost_per_1k as int,
                self.output_cost_per_1k as int,
            ),
    {
        proof {
            crate::text::lemma_u64_mul_fits_u128(input_tokens, self.input_cost_per_1k);
            crate::text::lemma_u64_mul_fits_u128(output_tokens, self.output_cost_per_1k);
        }
        let a: u128 = (input_tokens as u128) * (self.input_cost_per_1k as u128) / 1000;
        let b: u128 = (output_tokens as u128) * (self.output_cost_per_1k as u128) / 1000;
        let c: u128 = if a <= u128::MAX - b {
            a + b
        } else {
            u128::MAX
        };
        if c > u64::MAX as u128 {
            u64::MAX
        } else {
            c as u64
        }
    }
}

impl Default for TokenCost {
    fn default() -> (r: Self)
        ensures
            r.input_cost_per_1k == 300,
            r.output_cost_per_1k == 1500,
    {
        Self::new_default()
    }
}

/// Configuration for token budget enforcement.
#[derive(Clone, Debug)]
pub struct TokenBudgetConfig {
    /// Maximum tokens per story (0 = unlimited).
    pub story_budget: u64,
    /// Maximum total tokens across all stories (0 = unlimited).
    pub total_budget: u64,
    /// Maximum cost in millicents (0 = unlimited).
    pub max_cost_millicents: u64,
    /// Warning threshold in per-mille of the budget (0..=1000).
    pub warning_threshold_permille: u32,
    /// Critical threshold in per-mille of the budget (0..=1000).
    pub critical_threshold_permille: u32,
    /// Whether to abort when the story budget is exceeded.
    pub abort_on_story_budget_exceeded: bool,
    /// Whether to abort when the total budget is exceeded.
    pub abort_on_total_budget_exceeded: bool,
    /// Cost settings for the model in use.
    pub cost_settings: TokenCost,
    /// Reserve buffer subtracted from the effective story budget (tokens).
    pub reserve_buffer: u64,
    /// Enable detailed token logging.
    pub verbose_logging: bool,
}

impl TokenBudgetConfig {
    /// The default configuration: 100K per story, 1M total, warn at 70%,
    /// critical at 90%, no cost cap, 5K reserve.
    pub fn new() -> (r: Self)
        ensures
            r.story_budget == 100_000,
            r.total_budget == 1_000_000,
            r.max_cost_millicents == 0,
            r.warning_threshold_permille == 700,
            r.critical_threshold_permille == 900,
            r.abort_on_story_budget_exceeded,
            r.abort_on_total_budget_exceeded,
            r.reserve_buffer == 5_000,
            !r.verbose_logging,
    {
        TokenBudgetConfig {
            story_budget: 100_000,
            total_budget: 1_000_000,
            max_cost_millicents: 0,
            warning_threshold_permille: 700,
            critical_threshold_permille: 900,
            abort_on_story_budget_exceeded: true,
            abort_on_total_budget_exceeded: true,
            cost_settings: TokenCost::new_default(),
            reserve_buffer: 5_000,
            verbose_logging: false,
        }
    }

    /// A configuration with no enforcement at all.
    pub fn unlimited() -> (r: Self)
        ensures
            r.story_budget == 0,
            r.total_budget == 0,
            r.max_cost_millicents == 0,
            r.warning_threshold_permille == 1000,
            r.critical_threshold_permille == 1000,
            !r.abort_on_story_budget_exceeded,
            !r.abort_on_total_budget_exceeded,
            r.reserve_buffer == 0,
    {
        TokenBudgetConfig {
            story_budget: 0,
            total_budget: 0,
            max_cost_millicents: 0,
            warning_threshold_permille: 1000,
            critical_threshold_permille: 1000,
            abort_on_story_budget_exceeded: false,
            abort_on_total_budget_exceeded: false,
            cost_settings: TokenCost::new_default(),
            reserve_buffer: 0,
            verbose_logging: false,
        }
    }

    /// A conservative configuration with stricter limits.
    pub fn conservative() -> (r: Self)
        ensures
            r.story_budget == 50_000,
            r.total_budget == 500_000,
            r.max_cost_millicents == 100_000,
            r.warning_threshold_permille == 500,
            r.critical_threshold_permille == 800,
            r.abort_on_story_budget_exceeded,
            r.abort_on_total_budget_exceeded,
            r.reserve_buffer == 10_000,
            r.verbose_logging,
    {
        TokenBudgetConfig {
            story_budget: 50_000,
            total_budget: 500_000,
            max_cost_millicents: 100_000,
            warning_threshold_permille: 500,
            critical_threshold_permille: 800,
            abort_on_story_budget_exceeded: true,
            abort_on_total_budget_exceeded: true,
            cost_settings: TokenCost::new_default(),
            reserve_buffer: 10_000,
            verbose_logging: true,
        }
    }

    /// The same configuration with the per-story budget replaced.
    pub fn with_story_budget(self, tokens: u64) -> (r: Self)
        ensures
            r == (TokenBudgetConfig { story_budget: tokens, ..self }),
    {
        TokenBudgetConfig { story_budget: tokens, ..self }
    }

    /// The same configuration with the total budget replaced.
    pub fn with_total_budget(self, tokens: u64) -> (r: Self)
        ensures
            r == (TokenBudgetConfig { total_budget: tokens, ..self }),
    {
        TokenBudgetConfig { total_budget: tokens, ..self }
    }

    /// The same configuration with the cost cap replaced (millicents).
    pub fn with_max_cost(self, millicents: u64) -> (r: Self)
        ensures
            r == (TokenBudgetConfig { max_cost_millicents: millicents, ..self }),
    {
        TokenBudgetConfig { max_cost_millicents: millicents, ..self }
    }

    /// The same configuration with the warning threshold replaced,
    /// clamped to at most 1000 per-mille.
    pub fn with_warning_threshold(self, permille: u32) -> (r: Self)
        ensures
            r == (TokenBudgetConfig {
                warning_threshold_permille: if permille <= 1000 { permille } else { 1000u32 },
                ..self
            }),
    {
        let t: u32 = if permille <= 1000 { permille } else { 1000 };
        TokenBudgetConfig { warning_threshold_permille: t, ..self }
    }

    /// The same configuration with the critical threshold replaced,
    /// clamped to at most 1000 per-mille.
    pub fn with_critical_threshold(self, permille: u32) -> (r: Self)
        ensures
            r == (TokenBudgetConfig {
                critical_threshold_permille: if permille <= 1000 { permille } else { 1000u32 },
                ..self
            }),
    {
        let t: u32 = if permille <= 1000 { permille } else { 1000 };
        TokenBudgetConfig { critical_threshold_permille: t, ..self }
    }

    /// The same configuration with the story abort flag replaced.
    pub fn with_abort_on_story_exceeded(self, abort: bool) -> (r: Self)
        ensures
            r == (TokenBudgetConfig { abort_on_story_budget_exceeded: abort, ..self }),
    {
        TokenBudgetConfig { abort_on_story_budget_exceeded: abort, ..self }
    }

    /// The same configuration with the total abort flag replaced.
    pub fn with_abort_on_total_exceeded(self, abort: bool) -> (r: Self)
        ensures
            r == (TokenBudgetConfig { abort_on_total_budget_exceeded: abort, ..self }),
    {
        TokenBudgetConfig { abort_on_total_budget_exceeded: abort, ..self }
    }

    /// The same configuration with the cost settings replaced.
    pub fn with_cost_settings(self, cost: TokenCost) -> (r: Self)
        ensures
            r == (TokenBudgetConfig { cost_settings: cost, ..self }),
    {
        TokenBudgetConfig { cost_settings: cost, ..self }
    }

    /// The same configuration with the reserve buffer replaced.
    pub fn with_reserve_buffer(self, tokens: u64) -> (r: Self)
        ensures
            r == (TokenBudgetConfig { reserve_buffer: tokens, ..self }),
    {
        TokenBudgetConfig { reserve_buffer: tokens, ..self }
    }

    /// The same configuration with verbose logging set.
    pub fn with_verbose_logging(self, verbose: bool) -> (r: Self)
        ensures
            r == (TokenBudgetConfig { verbose_logging: verbose, ..self }),
    {
        TokenBudgetConfig { verbose_logging: verbose, ..self }
    }

    /// Whether any budget dimension is enforced.
    pub fn is_enabled(&self) -> (r: bool)
        ensures
            r == (self.story_budget > 0 || self.total_budget > 0 || self.max_cost_millicents > 0),
    {
        self.story_budget > 0 || self.total_budget > 0 || self.max_cost_millicents > 0
    }

    /// The story budget left after the reserve buffer.
    pub fn effective_story_budget(&self) -> (r: u64)
        ensures
            r == if self.story_budget >= self.reserve_buffer {
                self.story_budget - self.reserve_buffer
            } else {
                0int
            },
    {
        if self.story_budget >= self.reserve_buffer {
            self.story_budget - self.reserve_buffer
        } else {
            0
        }
    }
}

impl Default for TokenBudgetConfig {
    fn default() -> (r: Self)
        ensures
            r.story_budget == 100_000,
            r.total_budget == 1_000_000,
            r.warning_threshold_permille == 700,
            r.critical_threshold_permille == 900,
    {
        Self::new()
    }
}

} // verus!
