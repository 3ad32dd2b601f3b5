//! Token estimation from text, by character and whitespace-word counts.

use vstd::prelude::*;

verus! {

/// Token estimation strategies.
#[derive(Clone, Copy, Debug, PartialEq, Eq, Structural)]
pub enum EstimationMethod {
    /// Character-based estimation (about 3.5 characters per token).
    CharacterBased,
    /// Word-based estimation (about 1.3 tokens per word).
    WordBased,
    /// The larger of the two, with a safety margin on top.
    Conservative,
}

impl Default for EstimationMethod {
    fn default() -> (r: Self)
        ensures
            r == EstimationMethod::Conservative,
    {
        EstimationMethod::Conservative
    }
}

/// The number of whitespace-separated words of a character sequence, as
/// `str::split_whitespace` counts them.
pub uninterp spec fn word_count_of(s: Seq<char>) -> nat;

/// Relies on `str::split_whitespace` and `Iterator::count`: the number of
/// maximal non-whitespace runs, a function of the characters alone; an empty
/// string has none.
#[verifier::external_body]
fn word_count(s: &str) -> (n: usize)
    ensures
        n == word_count_of(s@),
        s@.len() == 0 ==> n == 0,
{
    s.split_whitespace().count()
}

/// Tokens estimated from `chars` characters: one per 3.5 characters,
/// rounded up.
pub open spec fn spec_char_estimate(chars: int) -> int {
    (chars * 2 + 6) / 7
}

/// Tokens estimated from `words` words: 1.3 per word, rounded up.
pub open spec fn spec_word_estimate(words: int) -> int {
    (words * 13 + 9) / 10
}

/// `base` with a safety margin of `margin` hundredths applied, rounded up
/// and saturating at `u64::MAX` (a base beyond `u64::MAX` saturates first).
pub open spec fn spec_with_margin(base: int, margin: int) -> int {
    let b = if base <= u64::MAX { base } else { u64::MAX as int };
    let v = (b * margin + 99) / 100;
    if v <= u64::MAX {
        v
    } else {
        u64::MAX as int
    }
}

/// The base estimate of a text, before the safety margin.
pub open spec fn spec_base_estimate(method: EstimationMethod, chars: int, words: int) -> int {
    match method {
        EstimationMethod::CharacterBased => spec_char_estimate(chars),
        EstimationMethod::WordBased => spec_word_estimate(words),
        EstimationMethod::Conservative => {
            let c = spec_char_estimate(chars);
            let w = spec_word_estimate(words);
            if c >= w {
                c
            } else {
                w
            }
        },
    }
}

/// The full estimate for a text of `chars` characters and `words` words.
pub open spec fn spec_estimate(e: TokenEstimator, chars: int, words: int) -> int {
    spec_with_margin(spec_base_estimate(e.method, chars, words), e.safety_margin_hundredths as int)
}

/// Token estimator for counting tokens from text.
#[derive(Clone, Debug)]
pub struct TokenEstimator {
    /// The estimation method.
    pub method: EstimationMethod,
    /// Safety margin in hundredths (100 = none, 120 = 20% extra).
    pub safety_margin_hundredths: u64,
}

impl Default for TokenEstimator {
    fn default() -> (r: Self)
        ensures
            r.method == EstimationMethod::Conservative,
            r.safety_margin_hundredths == 120,
    {
        TokenEstimator { method: EstimationMethod::Conservative, safety_margin_hundredths: 120 }
    }
}

impl TokenEstimator {
    /// An estimator using the given method, with a 20% margin only for the
    /// conservative method.
    pub fn new(method: EstimationMethod) -> (r: Self)
        ensures
            r.method == method,
            r.safety_margin_hundredths == (if method == EstimationMethod::Conservative {
                120int
            } else {
                100int
            }),
    {
        let margin: u64 = match method {
            EstimationMethod::CharacterBased => 100,
            EstimationMethod::WordBased => 100,
            EstimationMethod::Conservative => 120,
        };
        TokenEstimator { method, safety_margin_hundredths: margin }
    }

    /// A conservative estimator with a custom safety margin, at least 100.
    pub fn conservative(safety_margin_hundredths: u64) -> (r: Self)
        ensures
            r.method == EstimationMethod::Conservative,
            r.safety_margin_hundredths == (if safety_margin_hundredths >= 100 {
                safety_margin_hundredths as int
            } else {
                100int
            }),
    {
        TokenEstimator {
            method: EstimationMethod::Conservative,
            safety_margin_hundredths: if safety_margin_hundredths >= 100 {
                safety_margin_hundredths
            } else {
                100
            },
        }
    }

    /// Estimate tokens for a text.
    pub fn estimate(&self, text: &str) -> (r: u64)
        ensures
            r == spec_estimate(*self, text@.len() as int, word_count_of(text@) as int),
            text@.len() == 0 ==> r == 0,
    {
        let chars = text.unicode_len() as u128;
        let words = word_count(text) as u128;
        let char_est: u128 = (chars * 2 + 6) / 7;
        let word_est: u128 = (words * 13 + 9) / 10;
        let base: u128 = match self.method {
            EstimationMethod::CharacterBased => char_est,
            EstimationMethod::WordBased => word_est,
            EstimationMethod::Conservative => if char_est >= word_est {
                char_est
            } else {
                word_est
            },
        };
        let b: u128 = if base <= u64::MAX as u128 {
            base
        } else {
            u64::MAX as u128
        };
        proof {
            crate::text::lemma_u64_mul_fits_u128(b as u64, self.safety_margin_hundredths);
        }
        let v: u128 = (b * (self.safety_margin_hundredths as u128) + 99) / 100;
        proof {
            if text@.len() == 0 {
                assert(b == 0);
                assert(b * (self.safety_margin_hundredths as u128) == 0) by (nonlinear_arith)
                    requires
                        b == 0,
                ;
                assert(spec_base_estimate(self.method, 0, 0) == 0);
                assert(spec_with_margin(0, self.safety_margin_hundredths as int) == 0)
                    by (nonlinear_arith);
            }
        }
        if v > u64::MAX as u128 {
            u64::MAX
        } else {
            v as u64
        }
    }

    /// Estimate prompt tokens including system, tool and formatting overhead.
    pub fn estimate_prompt(&self, prompt: &str, num_tools: usize) -> (r: u64)
        ensures
            ({
                let base = spec_estimate(*self, prompt@.len() as int, word_count_of(prompt@) as int);
                let total = base + 500 + num_tools * 200 + 100;
                r == if total <= u64::MAX {
                    total
                } else {
                    u64::MAX as int
                }
            }),
    {
        let base = self.estimate(prompt) as u128;
        let total: u128 = base + 500 + (num_tools as u128) * 200 + 100;
        if total > u64::MAX as u128 {
            u64::MAX
        } else {
            total as u64
        }
    }

    /// Estimate input and output tokens for one agent interaction.
    pub fn estimate_interaction(&self, prompt: &str, output: &str) -> (r: TokenCount)
        ensures
            r.input_tokens == spec_estimate(
                *self,
                prompt@.len() as int,
                word_count_of(prompt@) as int,
            ),
            r.output_tokens == spec_estimate(
                *self,
                output@.len() as int,
                word_count_of(output@) as int,
            ),
    {
        TokenCount { input_tokens: self.estimate(prompt), output_tokens: self.estimate(output) }
    }

    /// Estimate tokens for a story prompt: title, description and criteria
    /// estimates, 50 tokens per context line, a 300-token template overhead,
    /// and the safety margin over the sum.
    pub fn estimate_story_prompt(
        &self,
        story_title: &str,
        story_description: &str,
        acceptance_criteria: &Vec<String>,
        context_lines: usize,
    ) -> (r: u64)
    {
        let mut total: u128 = 0;
        total += self.estimate(story_title) as u128;
        total += self.estimate(story_description) as u128;
        let mut i: usize = 0;
        while i < acceptance_criteria.len()
            invariant
                total <= 0x1_0000_0000_0000_0000_0000u128,
                i <= acceptance_criteria.len(),
            decreases acceptance_criteria.len() - i,
        {
            if total <= 0xffff_0000_0000_0000_0000u128 {
                total += self.estimate(&acceptance_criteria[i]) as u128;
            }
            i += 1;
        }
        if total <= 0xffff_0000_0000_0000_0000u128 {
            total += (context_lines as u128) * 50;
        }
        total += 300;
        let b: u128 = if total <= u64::MAX as u128 {
            total
        } else {
            u64::MAX as u128
        };
        proof {
            crate::text::lemma_u64_mul_fits_u128(b as u64, self.safety_margin_hundredths);
        }
        let v: u128 = (b * (self.safety_margin_hundredths as u128) + 99) / 100;
        if v > u64::MAX as u128 {
            u64::MAX
        } else {
            v as u64
        }
    }
}

/// Input and output token counts for one interaction.
#[derive(Clone, Copy, Debug, PartialEq, Eq, Structural)]
pub struct TokenCount {
    /// Input (prompt) tokens.
    pub input_tokens: u64,
    /// Output (completion) tokens.
    pub output_tokens: u64,
}

impl Default for TokenCount {
    fn default() -> (r: Self)
        ensures
            r.input_tokens == 0 && r.output_tokens == 0,
    {
        TokenCount { input_tokens: 0, output_tokens: 0 }
    }
}

/// `a + b`, saturating at `u64::MAX`.
pub open spec fn sat_add(a: int, b: int) -> int {
    if a + b <= u64::MAX {
        a + b
    } else {
        u64::MAX as int
    }
}

/// Saturating addition on `u64`.
pub fn sat_add_u64(a: u64, b: u64) -> (r: u64)
    ensures
        r == sat_add(a as int, b as int),
{
    if a <= u64::MAX - b {
        a + b
    } else {
        u64::MAX
    }
}

impl TokenCount {
    /// A token count from input and output values.
    pub fn new(input: u64, output: u64) -> (r: Self)
        ensures
            r.input_tokens == input,
            r.output_tokens == output,
    {
        TokenCount { input_tokens: input, output_tokens: output }
    }

    /// Total tokens, saturating at `u64::MAX`.
    pub fn total(&self) -> (r: u64)
        ensures
            r == sat_add(self.input_tokens as int, self.output_tokens as int),
    {
        sat_add_u64(self.input_tokens, self.output_tokens)
    }

    /// Add another token count onto this one, saturating.
    pub fn add(&mut self, other: TokenCount)
        ensures
            final(self).input_tokens == sat_add(
                old(self).input_tokens as int,
                other.input_tokens as int,
            ),
            final(self).output_tokens == sat_add(
                old(self).output_tokens as int,
                other.output_tokens as int,
            ),
    {
        self.input_tokens = sat_add_u64(self.input_tokens, other.input_tokens);
        self.output_tokens = sat_add_u64(self.output_tokens, other.output_tokens);
    }
}

} // verus!
