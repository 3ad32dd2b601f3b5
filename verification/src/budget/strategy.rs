//! Budget-aware execution strategy: how prompt construction and retries
//! adapt to the budget status.

use vstd::prelude::*;

use crate::budget::tracker::{spec_effective_status, BudgetStatus, TokenBudget};
use crate::text::push_dec;

verus! {

/// Strategy for prompt generation based on budget.
#[derive(Clone, Copy, Debug, PartialEq, Eq, Structural)]
pub enum PromptStrategy {
    /// Full prompts with all context and hints.
    Full,
    /// Standard prompts with moderate context.
    Standard,
    /// Minimal prompts to conserve tokens.
    Minimal,
    /// Bare minimum context only.
    Critical,
}

impl Default for PromptStrategy {
    fn default() -> (r: Self)
        ensures
            r == PromptStrategy::Standard,
    {
        PromptStrategy::Standard
    }
}

/// The error-history cap of each prompt strategy: 10, 5, 2 or 1.
pub open spec fn spec_max_error_history(s: PromptStrategy) -> int {
    match s {
        PromptStrategy::Full => 10,
        PromptStrategy::Standard => 5,
        PromptStrategy::Minimal => 2,
        PromptStrategy::Critical => 1,
    }
}

impl PromptStrategy {
    /// Maximum error-history entries included under this strategy.
    pub fn max_error_history(&self) -> (r: usize)
        ensures
            r == spec_max_error_history(*self),
    {
        match self {
            PromptStrategy::Full => 10,
            PromptStrategy::Standard => 5,
            PromptStrategy::Minimal => 2,
            PromptStrategy::Critical => 1,
        }
    }

    /// Maximum affected files included under this strategy.
    pub fn max_affected_files(&self) -> (r: usize)
        ensures
            r == spec_max_error_history(*self),
    {
        match self {
            PromptStrategy::Full => 10,
            PromptStrategy::Standard => 5,
            PromptStrategy::Minimal => 2,
            PromptStrategy::Critical => 1,
        }
    }

    /// Whether approach hints are included.
    pub fn include_hints(&self) -> (r: bool)
        ensures
            r == (*self == PromptStrategy::Full || *self == PromptStrategy::Standard),
    {
        matches!(self, PromptStrategy::Full | PromptStrategy::Standard)
    }

    /// Whether partial progress is included.
    pub fn include_partial_progress(&self) -> (r: bool)
        ensures
            r == (*self == PromptStrategy::Full || *self == PromptStrategy::Standard),
    {
        matches!(self, PromptStrategy::Full | PromptStrategy::Standard)
    }

    /// Whether full error details are included.
    pub fn include_full_error_details(&self) -> (r: bool)
        ensures
            r == (*self == PromptStrategy::Full),
    {
        matches!(self, PromptStrategy::Full)
    }

    /// Context multiplier in per-mille: 1000, 700, 300 or 100.
    pub fn context_multiplier_permille(&self) -> (r: u32)
        ensures
            r == match *self {
                PromptStrategy::Full => 1000int,
                PromptStrategy::Standard => 700int,
                PromptStrategy::Minimal => 300int,
                PromptStrategy::Critical => 100int,
            },
    {
        match self {
            PromptStrategy::Full => 1000,
            PromptStrategy::Standard => 700,
            PromptStrategy::Minimal => 300,
            PromptStrategy::Critical => 100,
        }
    }
}

/// Overall budget-aware execution strategy.
#[derive(Clone, Debug)]
pub struct BudgetStrategy {
    /// Current prompt strategy.
    pub prompt_strategy: PromptStrategy,
    /// Whether to skip optional quality gates.
    pub skip_optional_gates: bool,
    /// Whether to reduce retry attempts.
    pub reduce_retries: bool,
    /// Maximum retries allowed (0 = use default).
    pub max_retries: u32,
    /// Whether to prioritize smaller stories.
    pub prioritize_small_stories: bool,
    /// Reason for the current strategy.
    pub reason: String,
}

/// The strategy that each budget status maps to, by its observable fields.
pub open spec fn spec_strategy_fields(status: BudgetStatus) -> (PromptStrategy, bool, bool, u32, bool) {
    match status {
        BudgetStatus::Normal => (PromptStrategy::Standard, false, false, 0u32, false),
        BudgetStatus::Warning => (PromptStrategy::Standard, true, false, 0u32, true),
        BudgetStatus::Critical => (PromptStrategy::Minimal, true, true, 2u32, true),
        BudgetStatus::Exceeded => (PromptStrategy::Critical, true, true, 0u32, true),
    }
}

/// The observable fields of a strategy.
pub open spec fn strategy_fields(s: BudgetStrategy) -> (PromptStrategy, bool, bool, u32, bool) {
    (s.prompt_strategy, s.skip_optional_gates, s.reduce_retries, s.max_retries,
    s.prioritize_small_stories)
}

impl Default for BudgetStrategy {
    fn default() -> (r: Self)
        ensures
            strategy_fields(r) == spec_strategy_fields(BudgetStatus::Normal),
    {
        BudgetStrategy {
            prompt_strategy: PromptStrategy::Standard,
            skip_optional_gates: false,
            reduce_retries: false,
            max_retries: 0,
            prioritize_small_stories: false,
            reason: String::from_str("Default strategy"),
        }
    }
}

impl BudgetStrategy {
    /// The strategy for the worse of a budget's story and total statuses.
    pub fn from_budget(budget: &TokenBudget) -> (r: Self)
        requires
            budget.wf(),
        ensures
            strategy_fields(r) == spec_strategy_fields(
                spec_effective_status(budget.spec_story_status(), budget.spec_total_status()),
            ),
    {
        let story_status = budget.story_status();
        let total_status = budget.total_status();
        let effective_status = if matches!(story_status, BudgetStatus::Exceeded) || matches!(
            total_status,
            BudgetStatus::Exceeded,
        ) {
            BudgetStatus::Exceeded
        } else if matches!(story_status, BudgetStatus::Critical) || matches!(
            total_status,
            BudgetStatus::Critical,
        ) {
            BudgetStatus::Critical
        } else if matches!(story_status, BudgetStatus::Warning) || matches!(
            total_status,
            BudgetStatus::Warning,
        ) {
            BudgetStatus::Warning
        } else {
            BudgetStatus::Normal
        };
        Self::from_status(effective_status)
    }

    /// The strategy for a budget status.
    ///
    /// This map is a pure function of the status: `Ok` gives the normal
    /// strategy, `Warning` the conservative one, `Critical` the minimal one
    /// and `Exceeded` the stopping one.
    pub fn from_status(status: BudgetStatus) -> (r: Self)
        ensures
            strategy_fields(r) == spec_strategy_fields(status),
    {
        match status {
            BudgetStatus::Normal => Self::normal(),
            BudgetStatus::Warning => Self::conservative(),
            BudgetStatus::Critical => Self::minimal(),
            BudgetStatus::Exceeded => Self::stop(),
        }
    }

    /// Normal execution strategy.
    pub fn normal() -> (r: Self)
        ensures
            strategy_fields(r) == spec_strategy_fields(BudgetStatus::Normal),
    {
        BudgetStrategy {
            prompt_strategy: PromptStrategy::Standard,
            skip_optional_gates: false,
            reduce_retries: false,
            max_retries: 0,
            prioritize_small_stories: false,
            reason: String::from_str("Budget OK - normal execution"),
        }
    }

    /// Conservative strategy for a budget warning.
    pub fn conservative() -> (r: Self)
        ensures
            strategy_fields(r) == spec_strategy_fields(BudgetStatus::Warning),
    {
        BudgetStrategy {
            prompt_strategy: PromptStrategy::Standard,
            skip_optional_gates: true,
            reduce_retries: false,
            max_retries: 0,
            prioritize_small_stories: true,
            reason: String::from_str("Budget warning - conservative execution"),
        }
    }

    /// Minimal strategy for a critical budget. The retry budget is pinned
    /// at two here, so the general halving rule of
    /// `effective_max_iterations` does not come into play for it.
    pub fn minimal() -> (r: Self)
        ensures
            strategy_fields(r) == spec_strategy_fields(BudgetStatus::Critical),
    {
        BudgetStrategy {
            prompt_strategy: PromptStrategy::Minimal,
            skip_optional_gates: true,
            reduce_retries: true,
            max_retries: 2,
            prioritize_small_stories: true,
            reason: String::from_str("Budget critical - minimal execution"),
        }
    }

    /// Stopping strategy for an exceeded budget.
    pub fn stop() -> (r: Self)
        ensures
            strategy_fields(r) == spec_strategy_fields(BudgetStatus::Exceeded),
    {
        BudgetStrategy {
            prompt_strategy: PromptStrategy::Critical,
            skip_optional_gates: true,
            reduce_retries: true,
            max_retries: 0,
            prioritize_small_stories: true,
            reason: String::from_str("Budget exceeded - stopping execution"),
        }
    }

    /// The iteration cap this strategy allows: an explicit cap wins, reduced
    /// retries halve the default (at least 1), otherwise the default stands.
    pub fn effective_max_iterations(&self, default_max: u32) -> (r: u32)
        ensures
            r == if self.max_retries > 0 {
                self.max_retries as int
            } else if self.reduce_retries {
                if default_max / 2 >= 1 {
                    default_max as int / 2
                } else {
                    1int
                }
            } else {
                default_max as int
            },
    {
        if self.max_retries > 0 {
            self.max_retries
        } else if self.reduce_retries {
            let h = default_max / 2;
            if h >= 1 {
                h
            } else {
                1
            }
        } else {
            default_max
        }
    }

    /// Whether execution should continue under this strategy.
    pub fn should_continue(&self) -> (r: bool)
        ensures
            r == (self.max_retries != 0 || self.prompt_strategy != PromptStrategy::Critical),
    {
        self.max_retries != 0 || !matches!(self.prompt_strategy, PromptStrategy::Critical)
    }
}

/// The strategy for equal statuses is equal: `from_status` is a pure
/// function of the status it is given.
pub proof fn lemma_strategy_determinism(a: BudgetStatus, b: BudgetStatus)
    requires
        a == b,
    ensures
        spec_strategy_fields(a) == spec_strategy_fields(b),
{
}

/// One error recorded for a past iteration, as prompt-building input.
#[derive(Clone, Debug)]
pub struct IterationError {
    /// The iteration the error occurred in.
    pub iteration: u32,
    /// A label for the error's category.
    pub category: String,
    /// The error message.
    pub message: String,
    /// Which gate failed, if any.
    pub failed_gate: Option<String>,
    /// Files affected by the error.
    pub affected_files: Vec<String>,
}

impl IterationError {
    /// An error record with no gate and no affected files.
    pub fn new(iteration: u32, category: String, message: String) -> (r: Self)
        ensures
            r.iteration == iteration,
            r.category == category,
            r.message == message,
            r.failed_gate is None,
            r.affected_files@.len() == 0,
    {
        IterationError { iteration, category, message, failed_gate: None, affected_files: Vec::new() }
    }
}

/// An approach hint with an observed success rate in percent.
#[derive(Clone, Debug)]
pub struct ApproachHint {
    /// What to try.
    pub description: String,
    /// Success rate in whole percent.
    pub success_rate_percent: u32,
}

/// Builder for budget-aware prompt sections.
#[derive(Clone, Debug)]
pub struct BudgetAwarePromptBuilder {
    /// The strategy in force.
    pub strategy: PromptStrategy,
}

impl BudgetAwarePromptBuilder {
    /// A builder for the given strategy.
    pub fn new(strategy: PromptStrategy) -> (r: Self)
        ensures
            r.strategy == strategy,
    {
        BudgetAwarePromptBuilder { strategy }
    }

    /// Build the error-history section: the most recent errors up to the
    /// strategy's cap, oldest of those first; empty when there are none.
    /// Strategies that drop full detail keep at most the first 100 bytes
    /// of each message, cut on a character boundary, and strategies whose
    /// file cap is zero list no affected files.
    pub fn build_error_history(&self, errors: &Vec<IterationError>) -> (r: String)
        ensures
            errors@.len() == 0 ==> r@ == Seq::<char>::empty(),
            errors@.len() > 0 ==> "\n### Previous Errors\n\n"@.is_prefix_of(r@) && r@.len()
                > "\n### Previous Errors\n\n"@.len(),
    {
        let max_errors = self.strategy.max_error_history();
        let start: usize = if errors.len() > max_errors {
            errors.len() - max_errors
        } else {
            0
        };
        if errors.len() == 0 {
            return String::new();
        }
        let mut section = String::from_str("\n### Previous Errors\n\n");
        let ghost header = "\n### Previous Errors\n\n"@;
        proof {
            assert(section@.subrange(0, header.len() as int) =~= header);
            reveal_strlit("\n");
        }
        let mut i: usize = start;
        while i < errors.len()
            invariant
                start <= i <= errors@.len(),
                header == "\n### Previous Errors\n\n"@,
                header.is_prefix_of(section@),
                i > start ==> section@.len() > header.len(),
            decreases errors@.len() - i,
        {
            let ghost pre_section = section@;
            let e = &errors[i];
            section.append("- **Iteration ");
            push_dec(&mut section, e.iteration as u64);
            section.append("** (");
            section.append(e.category.as_str());
            section.append("): ");
            if self.strategy.include_full_error_details() {
                section.append(e.message.as_str());
            } else {
                section.append(crate::text::prefix_within(e.message.as_str(), 100));
            }
            section.append("\n");
            if let Some(gate) = &e.failed_gate {
                section.append("  - Failed gate: ");
                section.append(gate.as_str());
                section.append("\n");
            }
            proof {
                assert(section@.subrange(0, header.len() as int) =~= pre_section.subrange(
                    0,
                    header.len() as int,
                ));
                assert(header.is_prefix_of(section@));
                assert(section@.len() >= pre_section.len() + 1);
            }
            let cap = self.strategy.max_affected_files();
            if e.affected_files.len() > 0 && cap > 0 {
                section.append("  - Affected files: ");
                let mut j: usize = 0;
                while j < e.affected_files.len() && j < cap
                    invariant
                        j <= e.affected_files@.len(),
                        header == "\n### Previous Errors\n\n"@,
                        header.is_prefix_of(section@),
                        section@.len() >= pre_section.len() + 1,
                    decreases e.affected_files@.len() - j,
                {
                    let ghost pre_j = section@;
                    if j > 0 {
                        section.append(", ");
                    }
                    section.append(e.affected_files[j].as_str());
                    proof {
                        assert(section@.subrange(0, header.len() as int) =~= pre_j.subrange(
                            0,
                            header.len() as int,
                        ));
                        assert(header.is_prefix_of(section@));
                    }
                    j += 1;
                }
                let ghost pre_nl = section@;
                section.append("\n");
                proof {
                    assert(section@.subrange(0, header.len() as int) =~= pre_nl.subrange(
                        0,
                        header.len() as int,
                    ));
                    assert(header.is_prefix_of(section@));
                }
            }
            proof {
                assert(header.is_prefix_of(section@));
                assert(section@.len() > header.len());
            }
            i += 1;
        }
        proof {
            assert(errors@.len() > 0 ==> start < errors@.len());
        }
        section
    }

    /// Build the hints section: up to 5 (full) or 3 (standard) hints, and
    /// nothing under strategies that exclude hints.
    pub fn build_hints(&self, hints: &Vec<ApproachHint>) -> (r: String)
        ensures
            !(self.strategy == PromptStrategy::Full || self.strategy == PromptStrategy::Standard)
                ==> r@ == Seq::<char>::empty(),
            hints@.len() == 0 ==> r@ == Seq::<char>::empty(),
            (self.strategy == PromptStrategy::Full || self.strategy == PromptStrategy::Standard)
                && hints@.len() > 0 ==> "\n### Suggested Approaches\n\n"@.is_prefix_of(r@)
                && r@.len() > "\n### Suggested Approaches\n\n"@.len(),
    {
        if !self.strategy.include_hints() || hints.len() == 0 {
            return String::new();
        }
        let max_hints: usize = match self.strategy {
            PromptStrategy::Full => 5,
            PromptStrategy::Standard => 3,
            _ => 0,
        };
        let mut section = String::from_str("\n### Suggested Approaches\n\n");
        let ghost header = "\n### Suggested Approaches\n\n"@;
        proof {
            assert(section@.subrange(0, header.len() as int) =~= header);
        }
        let mut i: usize = 0;
        while i < hints.len() && i < max_hints
            invariant
                i <= hints@.len(),
                max_hints >= 1,
                header == "\n### Suggested Approaches\n\n"@,
                header.is_prefix_of(section@),
                i > 0 ==> section@.len() > header.len(),
            decreases hints@.len() - i,
        {
            let ghost pre_section = section@;
            section.append("- ");
            section.append(hints[i].description.as_str());
            section.append(" (success rate: ");
            push_dec(&mut section, hints[i].success_rate_percent as u64);
            section.append("%)\n");
            proof {
                assert(section@.subrange(0, header.len() as int) =~= pre_section.subrange(
                    0,
                    header.len() as int,
                ));
            }
            i += 1;
        }
        section
    }

    /// Build the partial-progress section from gate names and their already
    /// passing files; nothing under strategies that exclude it.
    pub fn build_partial_progress(&self, progress: &Vec<(String, Vec<String>)>) -> (r: String)
        ensures
            !(self.strategy == PromptStrategy::Full || self.strategy == PromptStrategy::Standard)
                ==> r@ == Seq::<char>::empty(),
            progress@.len() == 0 ==> r@ == Seq::<char>::empty(),
            (self.strategy == PromptStrategy::Full || self.strategy == PromptStrategy::Standard)
                && progress@.len() > 0 ==> "\n### Partial Progress\n\n"@.is_prefix_of(r@),
    {
        if !self.strategy.include_partial_progress() || progress.len() == 0 {
            return String::new();
        }
        let mut section = String::from_str("\n### Partial Progress\n\n");
        let ghost header = "\n### Partial Progress\n\n"@;
        proof {
            assert(section@.subrange(0, header.len() as int) =~= header);
        }
        let mut i: usize = 0;
        while i < progress.len()
            invariant
                i <= progress@.len(),
                header == "\n### Partial Progress\n\n"@,
                header.is_prefix_of(section@),
            decreases progress@.len() - i,
        {
            let ghost pre_section = section@;
            let files_len = progress[i].1.len();
            if files_len > 0 {
                section.append("- Gate '");
                section.append(progress[i].0.as_str());
                section.append("': ");
                push_dec(&mut section, files_len as u64);
                section.append(" files already passing\n");
                proof {
                    assert(section@.subrange(0, header.len() as int) =~= pre_section.subrange(
                        0,
                        header.len() as int,
                    ));
                    assert(header.is_prefix_of(section@));
                }
            }
            i += 1;
        }
        section
    }

    /// The strategy in use.
    pub fn strategy(&self) -> (r: PromptStrategy)
        ensures
            r == self.strategy,
    {
        self.strategy
    }
}

} // verus!
