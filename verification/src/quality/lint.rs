//! Analysis of lint tool output: structured JSON diagnostics first, plain
//! text as a fallback, truncated to twenty failures.

use vstd::prelude::*;

use crate::json::{parse_json, spec_get, JsonValue};
use crate::quality::testparse::spec_field_is;
use crate::quality::detail::{push_list_index, FailureCategory, GateFailureDetail};
use crate::text::{push_dec, str_has_prefix, str_starts_with, string_of_bytes};

verus! {

/// The most lint failures ever reported for one run.
pub const MAX_LINT_FAILURES: usize = 20;

/// The non-empty `suggested_replacement` of a diagnostic's first span.
pub open spec fn spec_first_span_replacement(v: JsonValue) -> Option<String> {
    match spec_get(v, "spans"@) {
        Some(JsonValue::Array(spans)) => if spans@.len() > 0 {
            match spec_get(spans@[0], "suggested_replacement"@) {
                Some(JsonValue::Str(rep)) => if rep@.len() > 0 {
                    Some(rep)
                } else {
                    None
                },
                _ => None,
            }
        } else {
            None
        },
        _ => None,
    }
}

/// Read the non-empty `suggested_replacement` of a value's first span.
fn first_span_replacement(v: &JsonValue) -> (r: Option<String>)
    ensures
        match r {
            Some(s) => spec_first_span_replacement(*v) matches Some(t) && t@ == s@,
            None => spec_first_span_replacement(*v) is None,
        },
{
    match v.get("spans") {
        Some(spans_val) => match spans_val.as_array() {
            Some(spans) => {
                if spans.len() > 0 {
                    match spans[0].get("suggested_replacement") {
                        Some(rep_val) => match rep_val.as_str() {
                            Some(rep) => {
                                if !rep.is_empty() {
                                    Some(String::from_str(rep))
                                } else {
                                    None
                                }
                            },
                            None => None,
                        },
                        None => None,
                    }
                } else {
                    None
                }
            },
            None => None,
        },
        None => None,
    }
}

/// The diagnostic text of a reported compiler message: present exactly
/// when the value is a compiler message at the `error` or `warning` level
/// whose text does not open with `aborting due to`.
pub open spec fn spec_clippy_text(v: JsonValue) -> Option<Seq<char>> {
    if spec_field_is(v, "reason"@, "compiler-message"@) {
        match spec_get(v, "message"@) {
            Some(m) => if spec_field_is(m, "level"@, "error"@) || spec_field_is(
                m,
                "level"@,
                "warning"@,
            ) {
                match spec_get(m, "message"@) {
                    Some(JsonValue::Str(t)) => if !str_has_prefix(t@, "aborting due to"@) {
                        Some(t@)
                    } else {
                        None
                    },
                    _ => None,
                }
            } else {
                None
            },
            None => None,
        }
    } else {
        None
    }
}

/// One diagnostic line of structured lint output, projected to a failure
/// detail: exactly the reported compiler messages yield one, under their
/// diagnostic text, with the error code, first-span location and a
/// suggestion carried over.
pub fn clippy_detail_of_message(line_value: &JsonValue) -> (r: Option<GateFailureDetail>)
    ensures
        match spec_clippy_text(*line_value) {
            Some(text) => {
                &&& r matches Some(d)
                &&& r.unwrap().category == FailureCategory::Lint
                &&& r.unwrap().message@ == text
            },
            None => r is None,
        },
{
    let reason_ok = match line_value.get("reason") {
        Some(reason) => match reason.as_str() {
            Some(s) => crate::text::str_eq(s, "compiler-message"),
            None => false,
        },
        None => false,
    };
    if !reason_ok {
        return None;
    }
    let message = match line_value.get("message") {
        Some(m) => m,
        None => {
            return None;
        },
    };
    let level_ok = match message.get("level") {
        Some(lv) => match lv.as_str() {
            Some(s) => crate::text::str_eq(s, "error") || crate::text::str_eq(s, "warning"),
            None => false,
        },
        None => false,
    };
    if !level_ok {
        return None;
    }
    let text = match message.get("message") {
        Some(t) => match t.as_str() {
            Some(s) => String::from_str(s),
            None => {
                return None;
            },
        },
        None => {
            return None;
        },
    };
    if str_starts_with(text.as_str(), "aborting due to") {
        return None;
    }
    let ghost text_view = text@;
    let mut detail = GateFailureDetail::new(FailureCategory::Lint, text);
    if let Some(code_val) = message.get("code") {
        if let Some(code_str) = code_val.get("code") {
            if let Some(code) = code_str.as_str() {
                detail = detail.with_error_code(String::from_str(code));
            }
        }
        if let Some(expl_val) = code_val.get("explanation") {
            if let Some(expl) = expl_val.as_str() {
                if !expl.is_empty() {
                    detail = detail.with_doc_url(String::from_str(expl));
                }
            }
        }
    }
    if let Some(spans_val) = message.get("spans") {
        if let Some(spans) = spans_val.as_array() {
            if spans.len() > 0 {
                let span = &spans[0];
                let file = match span.get("file_name") {
                    Some(f) => match f.as_str() {
                        Some(s) => Some(String::from_str(s)),
                        None => None,
                    },
                    None => None,
                };
                let line_no = match span.get("line_start") {
                    Some(l) => l.as_u64(),
                    None => None,
                };
                let col_no = match span.get("column_start") {
                    Some(c) => c.as_u64(),
                    None => None,
                };
                if let (Some(f), Some(l)) = (file, line_no) {
                    if l <= u32::MAX as u64 {
                        let col: Option<u32> = match col_no {
                            Some(c) => if c <= u32::MAX as u64 {
                                Some(c as u32)
                            } else {
                                None
                            },
                            None => None,
                        };
                        detail = detail.with_location(f, l as u32, col);
                    }
                }
                if let Some(rep) = first_span_replacement(message) {
                    detail = detail.with_suggestion(rep);
                }
            }
        }
    }
    if detail.suggestion.is_none() {
        if let Some(children_val) = message.get("children") {
            if let Some(children) = children_val.as_array() {
                let mut i: usize = 0;
                while i < children.len()
                    invariant
                        i <= children@.len(),
                        detail.category == FailureCategory::Lint,
                        detail.message@ == text_view,
                    decreases children@.len() - i,
                {
                    let child = &children[i];
                    let is_help = match child.get("level") {
                        Some(lv) => match lv.as_str() {
                            Some(s) => crate::text::str_eq(s, "help"),
                            None => false,
                        },
                        None => false,
                    };
                    if is_help {
                        if let Some(rep) = first_span_replacement(child) {
                            detail = detail.with_suggestion(rep);
                            break;
                        }
                        if let Some(msg_val) = child.get("message") {
                            if let Some(m) = msg_val.as_str() {
                                if !m.is_empty() {
                                    detail = detail.with_suggestion(String::from_str(m));
                                    break;
                                }
                            }
                        }
                    }
                    i += 1;
                }
            }
        }
    }
    Some(detail)
}

/// Parse structured JSON lint output, one diagnostic per line, into failure
/// details, truncated to twenty.
pub fn parse_clippy_json(stdout: &str) -> (r: Vec<GateFailureDetail>)
    ensures
        r@.len() <= 20,
        forall|i: int| 0 <= i < r@.len() ==> (#[trigger] r@[i]).category == FailureCategory::Lint,
{
    let mut failures: Vec<GateFailureDetail> = Vec::new();
    let bytes = stdout.as_bytes();
    let n = bytes.len();
    let mut start: usize = 0;
    while start < n
        invariant
            start <= n,
            n == bytes@.len(),
            failures@.len() <= 20,
            forall|i: int| 0 <= i < failures@.len() ==> (#[trigger] failures@[i]).category
                == FailureCategory::Lint,
        decreases n - start,
    {
        if failures.len() >= MAX_LINT_FAILURES {
            break;
        }
        let end = match crate::text::find_byte(bytes, start, 10) {
            Some(e) => e,
            None => n,
        };
        let (a, b) = crate::text::trim_range(bytes, start, end);
        if a < b {
            let line_bytes = crate::text::sub_bytes(bytes, a, b);
            let line = string_of_bytes(line_bytes.as_slice());
            if let Some(v) = parse_json(line.as_str()) {
                if let Some(d) = clippy_detail_of_message(&v) {
                    failures.push(d);
                }
            }
        }
        start = if end < n {
            end + 1
        } else {
            n
        };
    }
    failures
}

/// Parse plain lint text output: `error`/`warning` heading lines carry the
/// message, later `-->` lines the location.
pub fn parse_clippy_text(stderr: &str) -> (r: Vec<GateFailureDetail>)
    ensures
        r@.len() <= 20,
        forall|i: int| 0 <= i < r@.len() ==> (#[trigger] r@[i]).category == FailureCategory::Lint,
{
    let mut failures: Vec<GateFailureDetail> = Vec::new();
    let bytes = stderr.as_bytes();
    let n = bytes.len();
    let mut current_message: Option<String> = None;
    let mut current_file: Option<String> = None;
    let mut current_line: Option<u32> = None;
    let mut current_column: Option<u32> = None;
    let mut start: usize = 0;
    while start < n
        invariant
            start <= n,
            n == bytes@.len(),
            failures@.len() <= 20,
            forall|i: int| 0 <= i < failures@.len() ==> (#[trigger] failures@[i]).category
                == FailureCategory::Lint,
        decreases n - start,
    {
        if failures.len() >= MAX_LINT_FAILURES {
            break;
        }
        let end = match crate::text::find_byte(bytes, start, 10) {
            Some(e) => e,
            None => n,
        };
        let line_bytes = crate::text::sub_bytes(bytes, start, end);
        let line = line_bytes.as_slice();
        let is_heading = crate::text::starts_with(line, "error".as_bytes()) || crate::text::starts_with(
            line,
            "warning".as_bytes(),
        );
        if is_heading {
            if let Some(msg) = current_message.take() {
                let mut detail = GateFailureDetail::new(FailureCategory::Lint, msg);
                if let Some(file) = current_file.take() {
                    detail = detail.with_file(file);
                }
                if let Some(line_num) = current_line.take() {
                    detail = detail.with_line(line_num);
                }
                if let Some(col) = current_column.take() {
                    detail = detail.with_column(col);
                }
                failures.push(detail);
                if failures.len() >= MAX_LINT_FAILURES {
                    break;
                }
            }
            current_message = Some(heading_message(line));
        } else {
            let (ta, tb) = crate::text::trim_range(line, 0, line_bytes.len());
            let arrow_pat = "-->".as_bytes();
            if crate::text::starts_with_at(line, arrow_pat, ta) {
                let after = ta + arrow_pat.len();
                if after <= tb {
                    let (la, lb) = crate::text::trim_range(line, after, tb);
                    if let Some((file, line_no, col_no)) = parse_location(line, la, lb) {
                        current_file = Some(file);
                        current_line = Some(line_no);
                        current_column = col_no;
                    }
                }
            }
        }
        start = if end < n {
            end + 1
        } else {
            n
        };
    }
    if let Some(msg) = current_message {
        if failures.len() < MAX_LINT_FAILURES {
            let mut detail = GateFailureDetail::new(FailureCategory::Lint, msg);
            if let Some(file) = current_file {
                detail = detail.with_file(file);
            }
            if let Some(line_num) = current_line {
                detail = detail.with_line(line_num);
            }
            if let Some(col) = current_column {
                detail = detail.with_column(col);
            }
            failures.push(detail);
        }
    }
    failures
}

/// The message text of a heading line: what follows `]: ` when a bracketed
/// code is present, else what follows `: `, else the whole line.
fn heading_message(line: &[u8]) -> (r: String)
{
    let bracket_pat = "]: ".as_bytes();
    let has_bracket = crate::text::contains_sub(line, "[".as_bytes()) && crate::text::contains_sub(
        line,
        bracket_pat,
    );
    let n = line.len();
    if has_bracket {
        if let Some(pos) = crate::text::find_sub(line, bracket_pat, 0) {
            proof {
                assert(pos + bracket_pat@.len() <= line@.len());
            }
            let rest = crate::text::sub_bytes(line, pos + bracket_pat.len(), n);
            return string_of_bytes(rest.as_slice());
        }
    }
    let colon_pat = ": ".as_bytes();
    if let Some(pos) = crate::text::find_sub(line, colon_pat, 0) {
        proof {
            assert(pos + colon_pat@.len() <= line@.len());
        }
        let rest = crate::text::sub_bytes(line, pos + colon_pat.len(), n);
        return string_of_bytes(rest.as_slice());
    }
    string_of_bytes(line)
}

/// Parse a `file:line:column` location out of `s[[a, b))`, splitting on the
/// last two colons.
pub fn parse_location(s: &[u8], a: usize, b: usize) -> (r: Option<(String, u32, Option<u32>)>)
    requires
        a <= b <= s@.len(),
{
    let mut last_colon: Option<usize> = None;
    let mut second_colon: Option<usize> = None;
    let mut k: usize = a;
    while k < b
        invariant
            a <= k <= b <= s@.len(),
            last_colon matches Some(c) ==> a <= c < k,
            second_colon matches Some(c) ==> a <= c < k,
        decreases b - k,
    {
        if s[k] == 58 {
            second_colon = last_colon;
            last_colon = Some(k);
        }
        k += 1;
    }
    let lc = match last_colon {
        Some(c) => c,
        None => {
            return None;
        },
    };
    let sc = match second_colon {
        Some(c) => c,
        None => {
            return None;
        },
    };
    if !(a <= sc && sc < lc && lc < b) {
        return None;
    }
    let line_no = match crate::text::parse_u64_range(s, sc + 1, lc) {
        Some(v) => if v <= u32::MAX as u64 {
            v as u32
        } else {
            return None;
        },
        None => {
            return None;
        },
    };
    let col_no: Option<u32> = match crate::text::parse_u64_range(s, lc + 1, b) {
        Some(v) => if v <= u32::MAX as u64 {
            Some(v as u32)
        } else {
            None
        },
        None => None,
    };
    let file_bytes = crate::text::sub_bytes(s, a, sc);
    let file = string_of_bytes(file_bytes.as_slice());
    Some((file, line_no, col_no))
}

/// Extract structured lint failures: JSON diagnostics from standard output
/// first, plain-text parsing of standard error as the fallback.
pub fn extract_clippy_errors(stdout: &str, stderr: &str) -> (r: Vec<GateFailureDetail>)
    ensures
        r@.len() <= 20,
        forall|i: int| 0 <= i < r@.len() ==> (#[trigger] r@[i]).category == FailureCategory::Lint,
{
    let failures = parse_clippy_json(stdout);
    if failures.len() > 0 {
        return failures;
    }
    parse_clippy_text(stderr)
}

/// A numbered summary of lint failures, with locations where known.
pub fn format_clippy_summary(failures: &Vec<GateFailureDetail>) -> (r: String)
{
    if failures.len() == 0 {
        return String::from_str("No specific failures extracted");
    }
    let mut summary = String::new();
    push_dec(&mut summary, failures.len() as u64);
    summary.append(" issue(s) found:\n");
    let mut i: usize = 0;
    while i < failures.len()
        invariant
            i <= failures@.len(),
        decreases failures@.len() - i,
    {
        let f = &failures[i];
        push_list_index(&mut summary, (i as u64) + 1);
        match (&f.file, &f.line) {
            (Some(file), Some(line)) => {
                summary.append(file.as_str());
                summary.append(":");
                push_dec(&mut summary, *line as u64);
                summary.append(": ");
                summary.append(f.message.as_str());
            },
            (Some(file), None) => {
                summary.append(file.as_str());
                summary.append(": ");
                summary.append(f.message.as_str());
            },
            _ => {
                summary.append(f.message.as_str());
            },
        }
        summary.append("\n");
        i += 1;
    }
    summary
}

} // verus!
