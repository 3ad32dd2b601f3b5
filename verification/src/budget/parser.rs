//! Token usage parsing from agent output.
//!
//! Agents report usage in different JSON shapes:
//! `{"usage": {"input_tokens": N, "output_tokens": N}}` or
//! `{"usage": {"prompt_tokens": N, "completion_tokens": N}}`. The parser
//! scans the output line by line, and also attempts a brace-matched
//! extraction across the whole output for usage objects embedded in larger
//! documents.

use vstd::prelude::*;

use crate::budget::estimator::{sat_add, sat_add_u64, TokenCount, TokenEstimator};
use crate::json::{json_of, parse_json, spec_as_u64, spec_get, JsonValue};
use crate::text::string_of_bytes;

verus! {

/// Parsed token usage from agent output.
#[derive(Clone, Debug)]
pub struct ParsedTokenUsage {
    /// Input (prompt) tokens used.
    pub input_tokens: Option<u64>,
    /// Output (completion) tokens used.
    pub output_tokens: Option<u64>,
    /// Total tokens, when reported separately.
    pub total_tokens: Option<u64>,
    /// Whether this was parsed from actual usage data rather than estimated.
    pub is_actual: bool,
    /// Where the usage data came from.
    pub source: String,
}

impl Default for ParsedTokenUsage {
    fn default() -> (r: Self)
        ensures
            r.input_tokens is None,
            r.output_tokens is None,
            r.total_tokens is None,
            !r.is_actual,
            r.source@ == Seq::<char>::empty(),
    {
        ParsedTokenUsage {
            input_tokens: None,
            output_tokens: None,
            total_tokens: None,
            is_actual: false,
            source: String::new(),
        }
    }
}

impl ParsedTokenUsage {
    /// An empty parsed usage.
    pub fn empty() -> (r: Self)
        ensures
            r.input_tokens is None,
            r.output_tokens is None,
            r.total_tokens is None,
            !r.is_actual,
            r.source@ == Seq::<char>::empty(),
    {
        Self::default()
    }

    /// A usage built from actual parsed values.
    pub fn actual(input: u64, output: u64, source: String) -> (r: Self)
        ensures
            r.input_tokens == Some(input),
            r.output_tokens == Some(output),
            r.total_tokens == Some((sat_add(input as int, output as int)) as u64),
            r.is_actual,
            r.source == source,
    {
        ParsedTokenUsage {
            input_tokens: Some(input),
            output_tokens: Some(output),
            total_tokens: Some(sat_add_u64(input, output)),
            is_actual: true,
            source,
        }
    }

    /// A usage built from estimation.
    pub fn estimated(input: u64, output: u64) -> (r: Self)
        ensures
            r.input_tokens == Some(input),
            r.output_tokens == Some(output),
            r.total_tokens == Some((sat_add(input as int, output as int)) as u64),
            !r.is_actual,
            r.source@ == "estimated"@,
    {
        ParsedTokenUsage {
            input_tokens: Some(input),
            output_tokens: Some(output),
            total_tokens: Some(sat_add_u64(input, output)),
            is_actual: false,
            source: String::from_str("estimated"),
        }
    }

    /// Total tokens: the reported total, else the sum of what is known.
    pub fn total(&self) -> (r: u64)
        ensures
            r == match self.total_tokens {
                Some(t) => t as int,
                None => match (self.input_tokens, self.output_tokens) {
                    (Some(i), Some(o)) => sat_add(i as int, o as int),
                    (Some(i), None) => i as int,
                    (None, Some(o)) => o as int,
                    (None, None) => 0int,
                },
            },
    {
        match self.total_tokens {
            Some(t) => t,
            None => match (self.input_tokens, self.output_tokens) {
                (Some(i), Some(o)) => sat_add_u64(i, o),
                (Some(i), None) => i,
                (None, Some(o)) => o,
                (None, None) => 0,
            },
        }
    }

    /// This usage as a token count, with unknown sides as zero.
    pub fn to_token_count(&self) -> (r: TokenCount)
        ensures
            r.input_tokens == self.input_tokens.unwrap_or(0),
            r.output_tokens == self.output_tokens.unwrap_or(0),
    {
        TokenCount::new(
            match self.input_tokens {
                Some(i) => i,
                None => 0,
            },
            match self.output_tokens {
                Some(o) => o,
                None => 0,
            },
        )
    }
}

/// The usage reading of a JSON value, by the recognized shapes:
/// `input_tokens`/`output_tokens` is the first ("anthropic"), then
/// `prompt_tokens`/`completion_tokens` ("openai"), then either pair of
/// field names mixed ("parsed"). The result is input, output and the
/// source tag.
pub open spec fn spec_usage_of_json(v: JsonValue) -> Option<(u64, u64, Seq<char>)> {
    let in_a = spec_field_u64(v, "input_tokens"@);
    let out_a = spec_field_u64(v, "output_tokens"@);
    let in_o = spec_field_u64(v, "prompt_tokens"@);
    let out_o = spec_field_u64(v, "completion_tokens"@);
    if in_a is Some && out_a is Some {
        Some((in_a.unwrap(), out_a.unwrap(), "anthropic"@))
    } else if in_o is Some && out_o is Some {
        Some((in_o.unwrap(), out_o.unwrap(), "openai"@))
    } else {
        let i = if in_a is Some { in_a } else { in_o };
        let o = if out_a is Some { out_a } else { out_o };
        if i is Some && o is Some {
            Some((i.unwrap(), o.unwrap(), "parsed"@))
        } else {
            None
        }
    }
}

/// The `u64` reading of a field of a JSON object.
pub open spec fn spec_field_u64(v: JsonValue, key: Seq<char>) -> Option<u64> {
    match spec_get(v, key) {
        Some(x) => spec_as_u64(x),
        None => None,
    }
}

/// Read a field of a JSON object as a `u64`.
fn field_u64(v: &JsonValue, key: &str) -> (r: Option<u64>)
    ensures
        r == spec_field_u64(*v, key@),
{
    match v.get(key) {
        Some(x) => x.as_u64(),
        None => None,
    }
}

/// The usage that scanning a whole output yields, if any: what the first
/// JSON line holding a recognizable usage object gives, or what the
/// brace-matched extraction after the first `"usage"` key gives.
pub open spec fn spec_line_usage(s: Seq<char>) -> Option<(u64, u64, Seq<char>)> {
    match json_of(s) {
        Some(v) => match spec_get(v, "usage"@) {
            Some(u) => spec_usage_of_json(u),
            None => None,
        },
        None => None,
    }
}

/// Whether the output is one trimmed JSON-object line: nonempty, free of
/// newlines, without trailing whitespace, opening with `{`.
pub open spec fn spec_single_json_line(s: Seq<char>) -> bool {
    let w = vstd::utf8::encode_utf8(s);
    w.len() > 0 && w[0] == 123 && !crate::text::is_space_byte(w[w.len() - 1]) && (forall|k: int|
        0 <= k < w.len() ==> w[k] != 10)
}

/// Token usage parser for extracting actual usage from agent output.
#[derive(Clone, Debug)]
pub struct TokenUsageParser {
    /// Whether to log parsing attempts.
    pub verbose: bool,
}

impl Default for TokenUsageParser {
    fn default() -> (r: Self)
        ensures
            !r.verbose,
    {
        TokenUsageParser { verbose: false }
    }
}

impl TokenUsageParser {
    /// A new parser.
    pub fn new() -> (r: Self)
        ensures
            !r.verbose,
    {
        Self::default()
    }

    /// The same parser with verbose logging set.
    pub fn verbose(self, verbose: bool) -> (r: Self)
        ensures
            r.verbose == verbose,
    {
        TokenUsageParser { verbose }
    }

    /// Try to read a usage object out of a single JSON line.
    fn try_parse_json_line(&self, line: &str) -> (r: Option<ParsedTokenUsage>)
        ensures
            match r {
                Some(u) => {
                    &&& spec_line_usage(line@) matches Some(t)
                    &&& u.input_tokens == Some(t.0)
                    &&& u.output_tokens == Some(t.1)
                    &&& u.source@ == t.2
                    &&& u.is_actual
                },
                None => spec_line_usage(line@) is None,
            },
    {
        match parse_json(line) {
            Some(v) => match v.get("usage") {
                Some(u) => parse_usage_value(u),
                None => None,
            },
            None => None,
        }
    }

    /// Parse token usage from agent output.
    ///
    /// Scans the output line by line for a JSON object with a recognizable
    /// `usage` field, then falls back to a brace-matched extraction across
    /// the whole output. Whatever is found is actual usage.
    pub fn parse(&self, output: &str) -> (r: Option<ParsedTokenUsage>)
        ensures
            r matches Some(u) ==> u.is_actual && u.input_tokens is Some && u.output_tokens is Some,
            spec_single_json_line(output@) ==> (match spec_line_usage(output@) {
                Some(t) => r matches Some(u) && u.is_actual && u.input_tokens == Some(t.0)
                    && u.output_tokens == Some(t.1) && u.source@ == t.2,
                None => true,
            }),
    {
        let bytes = output.as_bytes();
        let n = bytes.len();
        let mut start: usize = 0;
        while start < n
            invariant
                start <= n,
                n == bytes@.len(),
                bytes@ == vstd::utf8::encode_utf8(output@),
                spec_single_json_line(output@) && spec_line_usage(output@) is Some ==> start
                    == 0,
            decreases n - start,
        {
            let end = match crate::text::find_byte(bytes, start, 10) {
                Some(e) => e,
                None => n,
            };
            let (a, b) = crate::text::trim_range(bytes, start, end);
            proof {
                if spec_single_json_line(output@) && spec_line_usage(output@) is Some {
                    if a > 0 {
                        assert(crate::text::is_space_byte(bytes@[0]));
                    }
                    if b < n {
                        assert(crate::text::is_space_byte(bytes@[n - 1]));
                    }
                    assert(a == 0 && b == n);
                }
            }
            if a < b && bytes[a] == 123 {
                let line_bytes = crate::text::sub_bytes(bytes, a, b);
                let line = string_of_bytes(line_bytes.as_slice());
                proof {
                    if spec_single_json_line(output@) && spec_line_usage(output@) is Some {
                        vstd::utf8::encode_utf8_valid_utf8(output@);
                        assert(line_bytes@ =~= bytes@);
                        assert(vstd::utf8::encode_utf8(line@) == bytes@);
                        vstd::utf8::encode_utf8_decode_utf8(line@);
                        vstd::utf8::encode_utf8_decode_utf8(output@);
                        assert(line@ == output@);
                    }
                }
                if let Some(u) = self.try_parse_json_line(line.as_str()) {
                    return Some(u);
                }
            }
            start = if end < n {
                end + 1
            } else {
                n
            };
        }
        proof {
            if spec_single_json_line(output@) && spec_line_usage(output@) is Some {
                assert(vstd::utf8::encode_utf8(output@).len() == 0);
                assert(false);
            }
        }
        self.try_extract_usage_object(output)
    }

    /// Try to extract a `"usage"` object embedded anywhere in the output.
    fn try_extract_usage_object(&self, output: &str) -> (r: Option<ParsedTokenUsage>)
        ensures
            r matches Some(u) ==> u.is_actual && u.input_tokens is Some && u.output_tokens is Some,
    {
        let bytes = output.as_bytes();
        let n = bytes.len();
        let mut pat: Vec<u8> = Vec::new();
        pat.push(34);
        pat.push(117);
        pat.push(115);
        pat.push(97);
        pat.push(103);
        pat.push(101);
        pat.push(34);
        let idx = match crate::text::find_sub(bytes, pat.as_slice(), 0) {
            Some(i) => i,
            None => {
                return None;
            },
        };
        proof {
            assert(idx + pat@.len() <= bytes@.len());
        }
        let after = idx + 7;
        let colon = match crate::text::find_byte(bytes, after, 58) {
            Some(c) => c,
            None => {
                return None;
            },
        };
        let (a, _b) = crate::text::trim_range(bytes, colon + 1, n);
        if a >= n || bytes[a] != 123 {
            return None;
        }
        let close = match find_matching_brace(bytes, a) {
            Some(c) => c,
            None => {
                return None;
            },
        };
        let usage_bytes = crate::text::sub_bytes(bytes, a, close + 1);
        let usage_text = string_of_bytes(usage_bytes.as_slice());
        match parse_json(usage_text.as_str()) {
            Some(v) => parse_usage_value(&v),
            None => None,
        }
    }

    /// Parse token usage from an agent CLI that prints JSON responses.
    pub fn parse_claude_cli(&self, output: &str) -> (r: Option<ParsedTokenUsage>)
        ensures
            r matches Some(u) ==> u.is_actual && u.input_tokens is Some && u.output_tokens is Some,
            spec_single_json_line(output@) ==> (match spec_line_usage(output@) {
                Some(t) => r matches Some(u) && u.is_actual && u.input_tokens == Some(t.0)
                    && u.output_tokens == Some(t.1) && u.source@ == t.2,
                None => true,
            }),
    {
        self.parse(output)
    }

    /// Parse token usage from Codex CLI output (JSON lines).
    pub fn parse_codex_cli(&self, output: &str) -> (r: Option<ParsedTokenUsage>)
        ensures
            r matches Some(u) ==> u.is_actual && u.input_tokens is Some && u.output_tokens is Some,
            spec_single_json_line(output@) ==> (match spec_line_usage(output@) {
                Some(t) => r matches Some(u) && u.is_actual && u.input_tokens == Some(t.0)
                    && u.output_tokens == Some(t.1) && u.source@ == t.2,
                None => true,
            }),
    {
        let bytes = output.as_bytes();
        let n = bytes.len();
        let mut start: usize = 0;
        while start < n
            invariant
                start <= n,
                n == bytes@.len(),
                bytes@ == vstd::utf8::encode_utf8(output@),
                spec_single_json_line(output@) && spec_line_usage(output@) is Some ==> start
                    == 0,
            decreases n - start,
        {
            let end = match crate::text::find_byte(bytes, start, 10) {
                Some(e) => e,
                None => n,
            };
            let (a, b) = crate::text::trim_range(bytes, start, end);
            proof {
                if spec_single_json_line(output@) && spec_line_usage(output@) is Some {
                    if a > 0 {
                        assert(crate::text::is_space_byte(bytes@[0]));
                    }
                    if b < n {
                        assert(crate::text::is_space_byte(bytes@[n - 1]));
                    }
                    assert(a == 0 && b == n);
                }
            }
            if a < b {
                let line_bytes = crate::text::sub_bytes(bytes, a, b);
                let line = string_of_bytes(line_bytes.as_slice());
                proof {
                    if spec_single_json_line(output@) && spec_line_usage(output@) is Some {
                        vstd::utf8::encode_utf8_valid_utf8(output@);
                        assert(line_bytes@ =~= bytes@);
                        assert(vstd::utf8::encode_utf8(line@) == bytes@);
                        vstd::utf8::encode_utf8_decode_utf8(line@);
                        vstd::utf8::encode_utf8_decode_utf8(output@);
                        assert(line@ == output@);
                    }
                }
                if let Some(u) = self.try_parse_json_line(line.as_str()) {
                    return Some(u);
                }
            }
            start = if end < n {
                end + 1
            } else {
                n
            };
        }
        proof {
            if spec_single_json_line(output@) && spec_line_usage(output@) is Some {
                assert(vstd::utf8::encode_utf8(output@).len() == 0);
                assert(false);
            }
        }
        None
    }
}

/// Read a usage object into a parsed usage, by the recognized shapes.
pub fn parse_usage_value(v: &JsonValue) -> (r: Option<ParsedTokenUsage>)
    ensures
        match r {
            Some(u) => {
                &&& spec_usage_of_json(*v) matches Some(t)
                &&& u.input_tokens == Some(t.0)
                &&& u.output_tokens == Some(t.1)
                &&& u.source@ == t.2
                &&& u.is_actual
            },
            None => spec_usage_of_json(*v) is None,
        },
{
    let in_a = field_u64(v, "input_tokens");
    let out_a = field_u64(v, "output_tokens");
    let in_o = field_u64(v, "prompt_tokens");
    let out_o = field_u64(v, "completion_tokens");
    if in_a.is_some() && out_a.is_some() {
        Some(ParsedTokenUsage::actual(in_a.unwrap(), out_a.unwrap(), String::from_str("anthropic")))
    } else if in_o.is_some() && out_o.is_some() {
        Some(ParsedTokenUsage::actual(in_o.unwrap(), out_o.unwrap(), String::from_str("openai")))
    } else {
        let i = if in_a.is_some() {
            in_a
        } else {
            in_o
        };
        let o = if out_a.is_some() {
            out_a
        } else {
            out_o
        };
        if i.is_some() && o.is_some() {
            Some(ParsedTokenUsage::actual(i.unwrap(), o.unwrap(), String::from_str("parsed")))
        } else {
            None
        }
    }
}

/// Find the closing brace matching the opening brace at `open`, counting
/// nesting depth.
fn find_matching_brace(s: &[u8], open: usize) -> (r: Option<usize>)
    requires
        open < s@.len(),
        s@[open as int] == 123,
    ensures
        r matches Some(j) ==> open < j < s@.len() && s@[j as int] == 125,
{
    let mut depth: usize = 0;
    let mut i: usize = open;
    while i < s.len()
        invariant
            open <= i <= s@.len(),
            depth <= i - open,
        decreases s@.len() - i,
    {
        if s[i] == 123 {
            depth += 1;
        } else if s[i] == 125 {
            if depth <= 1 {
                if i > open {
                    return Some(i);
                } else {
                    return None;
                }
            }
            depth -= 1;
        }
        i += 1;
    }
    None
}

/// Extract actual token usage from agent output, falling back to estimation
/// from the prompt and output texts when none is found.
pub fn extract_or_estimate(output: &str, prompt: &str, estimator: &TokenEstimator) -> (r:
    ParsedTokenUsage)
    ensures
        r.input_tokens is Some,
        r.output_tokens is Some,
        !r.is_actual ==> ({
            &&& r.input_tokens == Some(
                (crate::budget::estimator::spec_estimate(
                    *estimator,
                    prompt@.len() as int,
                    crate::budget::estimator::word_count_of(prompt@) as int,
                )) as u64,
            )
            &&& r.output_tokens == Some(
                (crate::budget::estimator::spec_estimate(
                    *estimator,
                    output@.len() as int,
                    crate::budget::estimator::word_count_of(output@) as int,
                )) as u64,
            )
            &&& r.source@ == "estimated"@
        }),
        spec_single_json_line(output@) ==> (match spec_line_usage(output@) {
            Some(t) => r.is_actual && r.input_tokens == Some(t.0) && r.output_tokens == Some(
                t.1,
            ) && r.source@ == t.2,
            None => true,
        }),
{
    let parser = TokenUsageParser::new();
    if let Some(usage) = parser.parse(output) {
        return usage;
    }
    let input_estimate = estimator.estimate(prompt);
    let output_estimate = estimator.estimate(output);
    ParsedTokenUsage::estimated(input_estimate, output_estimate)
}

} // verus!
