//! Analysis of test runner output: structured JSON events first, then the
//! `failures:` section and inline `FAILED` lines of plain text output.

use vstd::prelude::*;

use crate::json::{parse_json, spec_get, JsonValue};
use crate::quality::detail::{push_list_index, FailureCategory, GateFailureDetail};
use crate::text::{push_dec, string_of_bytes};

verus! {

/// The most test failures ever reported for one run.
pub const MAX_TEST_FAILURES: usize = 20;

/// Build the message `Test failed: <name>`.
fn test_failed_message(name: &str) -> (r: String)
    ensures
        r@ == "Test failed: "@ + name@,
{
    let mut m = String::from_str("Test failed: ");
    m.append(name);
    m
}

/// Whether a string field of `v` holds exactly `expected`.
pub open spec fn spec_field_is(v: JsonValue, key: Seq<char>, expected: Seq<char>) -> bool {
    match spec_get(v, key) {
        Some(JsonValue::Str(s)) => s@ == expected,
        _ => false,
    }
}

/// The name of a failed test event: present exactly when the value is a
/// `test` event with a `failed` outcome and a string name.
pub open spec fn spec_failed_test_name(v: JsonValue) -> Option<Seq<char>> {
    if spec_field_is(v, "type"@, "test"@) && spec_field_is(v, "event"@, "failed"@) {
        match spec_get(v, "name"@) {
            Some(JsonValue::Str(n)) => Some(n@),
            _ => None,
        }
    } else {
        None
    }
}

/// One structured test event, projected to a failure detail: exactly the
/// `test` events with a `failed` outcome and a name are reported, under
/// that name.
pub fn test_detail_of_event(v: &JsonValue) -> (r: Option<GateFailureDetail>)
    ensures
        match spec_failed_test_name(*v) {
            Some(n) => {
                &&& r matches Some(d)
                &&& r.unwrap().category == FailureCategory::Test
                &&& r.unwrap().message@ == "Test failed: "@ + n
                &&& r.unwrap().error_code matches Some(c) && c@ == n
            },
            None => r is None,
        },
{
    let is_test = match v.get("type") {
        Some(t) => match t.as_str() {
            Some(s) => crate::text::str_eq(s, "test"),
            None => false,
        },
        None => false,
    };
    if !is_test {
        return None;
    }
    let is_failed = match v.get("event") {
        Some(e) => match e.as_str() {
            Some(s) => crate::text::str_eq(s, "failed"),
            None => false,
        },
        None => false,
    };
    if !is_failed {
        return None;
    }
    let name = match v.get("name") {
        Some(n) => match n.as_str() {
            Some(s) => String::from_str(s),
            None => {
                return None;
            },
        },
        None => {
            return None;
        },
    };
    let mut detail = GateFailureDetail::new(FailureCategory::Test, test_failed_message(name.as_str()));
    detail = detail.with_error_code(name);
    let mut have_suggestion = false;
    if let Some(stdout_val) = v.get("stdout") {
        if let Some(content) = stdout_val.as_str() {
            if let Some(info) = extract_assertion_info(content) {
                detail = detail.with_suggestion(info);
                have_suggestion = true;
            }
            if let Some((file, line)) = extract_test_location(content) {
                detail = detail.with_file(file);
                detail = detail.with_line(line);
            }
        }
    }
    if !have_suggestion {
        if let Some(msg_val) = v.get("message") {
            if let Some(m) = msg_val.as_str() {
                detail = detail.with_suggestion(String::from_str(m));
            }
        }
    }
    Some(detail)
}

/// Parse structured JSON test output, one event per line, into failure
/// details, truncated to twenty.
pub fn parse_test_json(stdout: &str) -> (r: Vec<GateFailureDetail>)
    ensures
        r@.len() <= 20,
        forall|i: int| 0 <= i < r@.len() ==> (#[trigger] r@[i]).category == FailureCategory::Test,
{
    let mut failures: Vec<GateFailureDetail> = Vec::new();
    let bytes = stdout.as_bytes();
    let n = bytes.len();
    let mut start: usize = 0;
    while start < n
        invariant
            start <= n,
            n == bytes@.len(),
            failures@.len() <= 20,
            forall|i: int| 0 <= i < failures@.len() ==> (#[trigger] failures@[i]).category
                == FailureCategory::Test,
        decreases n - start,
    {
        if failures.len() >= MAX_TEST_FAILURES {
            break;
        }
        let end = match crate::text::find_byte(bytes, start, 10) {
            Some(e) => e,
            None => n,
        };
        let (a, b) = crate::text::trim_range(bytes, start, end);
        if a < b {
            let line_bytes = crate::text::sub_bytes(bytes, a, b);
            let line = string_of_bytes(line_bytes.as_slice());
            if let Some(v) = parse_json(line.as_str()) {
                if let Some(d) = test_detail_of_event(&v) {
                    failures.push(d);
                }
            }
        }
        start = if end < n {
            end + 1
        } else {
            n
        };
    }
    failures
}

/// Find the detail with the given test name as error code.
fn find_by_test_name(failures: &Vec<GateFailureDetail>, name: &str) -> (r: Option<usize>)
    ensures
        r matches Some(i) ==> i < failures@.len(),
{
    let mut i: usize = 0;
    while i < failures.len()
        invariant
            i <= failures@.len(),
        decreases failures@.len() - i,
    {
        if let Some(code) = &failures[i].error_code {
            if crate::text::str_eq(code.as_str(), name) {
                return Some(i);
            }
        }
        i += 1;
    }
    None
}

/// Parse plain test text output from both streams: the `failures:` section
/// with `---- name stdout ----` blocks, and inline `test name ... FAILED`
/// lines, de-duplicated by test name and truncated to twenty.
pub fn parse_test_text(stdout: &str, stderr: &str) -> (r: Vec<GateFailureDetail>)
    ensures
        r@.len() <= 20,
        forall|i: int| 0 <= i < r@.len() ==> (#[trigger] r@[i]).category == FailureCategory::Test,
{
    let mut combined = String::from_str(stdout);
    combined.append("\n");
    combined.append(stderr);
    let bytes = combined.as_str().as_bytes();
    let n = bytes.len();
    let mut failures: Vec<GateFailureDetail> = Vec::new();
    let mut in_failures_section = false;
    let mut current_test_name: Option<String> = None;
    let mut current_stdout = String::new();
    let mut start: usize = 0;
    while start < n
        invariant
            start <= n,
            n == bytes@.len(),
            failures@.len() <= 20,
            forall|i: int| 0 <= i < failures@.len() ==> (#[trigger] failures@[i]).category
                == FailureCategory::Test,
        decreases n - start,
    {
        if failures.len() >= MAX_TEST_FAILURES {
            break;
        }
        let end = match crate::text::find_byte(bytes, start, 10) {
            Some(e) => e,
            None => n,
        };
        let line_vec = crate::text::sub_bytes(bytes, start, end);
        let line = line_vec.as_slice();
        let (ta, tb) = crate::text::trim_range(line, 0, line_vec.len());
        let trimmed = crate::text::sub_bytes(line, ta, tb);
        let is_section_start = crate::text::bytes_eq(trimmed.as_slice(), "failures:".as_bytes());
        let is_result_line = crate::text::starts_with(line, "test result:".as_bytes());
        if is_section_start && !in_failures_section {
            in_failures_section = true;
        } else if in_failures_section && (is_result_line || is_section_start) {
            if let Some(name) = current_test_name.take() {
                let detail = build_test_failure_detail(name.as_str(), current_stdout.as_str());
                match find_by_test_name(&failures, name.as_str()) {
                    Some(i) => {
                        let slot = &mut failures[i];
                        *slot = detail;
                    },
                    None => {
                        failures.push(detail);
                    },
                }
                current_stdout = String::new();
            }
            if is_result_line {
                in_failures_section = false;
            }
        } else if in_failures_section && crate::text::starts_with(line, "---- ".as_bytes())
            && crate::text::contains_sub(line, " stdout ----".as_bytes()) {
            if let Some(name) = current_test_name.take() {
                let detail = build_test_failure_detail(name.as_str(), current_stdout.as_str());
                match find_by_test_name(&failures, name.as_str()) {
                    Some(i) => {
                        let slot = &mut failures[i];
                        *slot = detail;
                    },
                    None => {
                        failures.push(detail);
                    },
                }
                current_stdout = String::new();
            }
            if failures.len() < MAX_TEST_FAILURES {
                if let Some(pos) = crate::text::find_sub(line, " stdout ----".as_bytes(), 0) {
                    if pos >= 5 && pos <= line_vec.len() {
                        let name_bytes = crate::text::sub_bytes(line, 5, pos);
                        let (na, nb) = crate::text::trim_range(
                            name_bytes.as_slice(),
                            0,
                            name_bytes.len(),
                        );
                        let name_trim = crate::text::sub_bytes(name_bytes.as_slice(), na, nb);
                        current_test_name = Some(string_of_bytes(name_trim.as_slice()));
                    }
                }
            }
        } else if in_failures_section && current_test_name.is_some() {
            current_stdout.append(string_of_bytes(line).as_str());
            current_stdout.append("\n");
        }
        let is_inline_failed = crate::text::starts_with(line, "test ".as_bytes())
            && crate::text::ends_with(line, "FAILED".as_bytes());
        if is_inline_failed && !in_failures_section {
            if let Some(sp) = crate::text::find_byte(line, 5, 32) {
                if sp > 5 && sp <= line_vec.len() {
                    let name_bytes = crate::text::sub_bytes(line, 5, sp);
                    let name = string_of_bytes(name_bytes.as_slice());
                    if find_by_test_name(&failures, name.as_str()).is_none() {
                        if failures.len() < MAX_TEST_FAILURES {
                            let detail = GateFailureDetail::new(
                                FailureCategory::Test,
                                test_failed_message(name.as_str()),
                            ).with_error_code(name);
                            failures.push(detail);
                        }
                    }
                }
            }
        }
        start = if end < n {
            end + 1
        } else {
            n
        };
    }
    if let Some(name) = current_test_name {
        if failures.len() < MAX_TEST_FAILURES {
            let detail = build_test_failure_detail(name.as_str(), current_stdout.as_str());
            match find_by_test_name(&failures, name.as_str()) {
                Some(i) => {
                    let slot = &mut failures[i];
                    *slot = detail;
                },
                None => {
                    failures.push(detail);
                },
            }
        }
    }
    failures
}

/// A failure detail for one named test, with location and assertion info
/// taken from the test's captured output.
pub fn build_test_failure_detail(test_name: &str, stdout_content: &str) -> (r: GateFailureDetail)
    ensures
        r.category == FailureCategory::Test,
        r.message@ == "Test failed: "@ + test_name@,
        r.error_code matches Some(c) && c@ == test_name@,
{
    let mut detail = GateFailureDetail::new(
        FailureCategory::Test,
        test_failed_message(test_name),
    ).with_error_code(String::from_str(test_name));
    if let Some((file, line)) = extract_test_location(stdout_content) {
        detail = detail.with_file(file);
        detail = detail.with_line(line);
    }
    if let Some(info) = extract_assertion_info(stdout_content) {
        detail = detail.with_suggestion(info);
    }
    detail
}

/// Extract assertion information from a failed test's output: a
/// `left:`/`right:` pair becomes `Expected: <right>, Got: <left>`; an
/// `expected ... got` line or an old-style quoted panic message is returned
/// whole; a bare `assertion ... failed` line is kept as a fallback.
pub fn extract_assertion_info(stdout_content: &str) -> (r: Option<String>)
{
    let bytes = stdout_content.as_bytes();
    let n = bytes.len();
    let mut expected: Option<String> = None;
    let mut actual: Option<String> = None;
    let mut assertion_message: Option<String> = None;
    let mut start: usize = 0;
    while start < n
        invariant
            start <= n,
            n == bytes@.len(),
        decreases n - start,
    {
        let end = match crate::text::find_byte(bytes, start, 10) {
            Some(e) => e,
            None => n,
        };
        let (ta, tb) = crate::text::trim_range(bytes, start, end);
        let tvec = crate::text::sub_bytes(bytes, ta, tb);
        let t = tvec.as_slice();
        let left_pat = "left:".as_bytes();
        let right_pat = "right:".as_bytes();
        if crate::text::starts_with(t, left_pat) {
            let (va, vb) = crate::text::trim_range(t, left_pat.len(), tvec.len());
            let v = crate::text::sub_bytes(t, va, vb);
            actual = Some(string_of_bytes(v.as_slice()));
        } else if crate::text::starts_with(t, right_pat) {
            let (va, vb) = crate::text::trim_range(t, right_pat.len(), tvec.len());
            let v = crate::text::sub_bytes(t, va, vb);
            expected = Some(string_of_bytes(v.as_slice()));
        }
        if crate::text::starts_with(t, "assertion".as_bytes()) && crate::text::contains_sub(
            t,
            "failed".as_bytes(),
        ) {
            assertion_message = Some(string_of_bytes(t));
        }
        if crate::text::contains_sub(t, "expected".as_bytes()) && crate::text::contains_sub(
            t,
            "got".as_bytes(),
        ) {
            return Some(string_of_bytes(t));
        }
        if crate::text::starts_with(t, "thread".as_bytes()) && crate::text::contains_sub(
            t,
            "panicked at '".as_bytes(),
        ) {
            let panic_pat = "panicked at '".as_bytes();
            if let Some(at_pos) = crate::text::find_sub(t, panic_pat, 0) {
                let msg_start = at_pos + panic_pat.len();
                if msg_start <= tvec.len() {
                    if let Some(quote) = crate::text::find_byte(t, msg_start, 39) {
                        if quote > msg_start {
                            let msg = crate::text::sub_bytes(t, msg_start, quote);
                            return Some(string_of_bytes(msg.as_slice()));
                        }
                    }
                }
            }
        }
        start = if end < n {
            end + 1
        } else {
            n
        };
    }
    if let (Some(exp), Some(act)) = (expected, actual) {
        let mut out = String::from_str("Expected: ");
        out.append(exp.as_str());
        out.append(", Got: ");
        out.append(act.as_str());
        return Some(out);
    }
    assertion_message
}

/// Extract a `file.rs:line` location from a failed test's output, from
/// either a panic location or a `-->` arrow line.
pub fn extract_test_location(stdout_content: &str) -> (r: Option<(String, u32)>)
{
    let bytes = stdout_content.as_bytes();
    let n = bytes.len();
    let mut start: usize = 0;
    while start < n
        invariant
            start <= n,
            n == bytes@.len(),
        decreases n - start,
    {
        let end = match crate::text::find_byte(bytes, start, 10) {
            Some(e) => e,
            None => n,
        };
        let (ta, tb) = crate::text::trim_range(bytes, start, end);
        let tvec = crate::text::sub_bytes(bytes, ta, tb);
        let t = tvec.as_slice();
        let rs_pat = ".rs:".as_bytes();
        let tn = tvec.len();
        if let Some(rs_pos) = crate::text::find_sub(t, rs_pat, 0) {
            proof {
                assert(rs_pos + rs_pat@.len() <= t@.len());
                assert(t@.len() == tn);
            }
            let sum = rs_pos + rs_pat.len();
            if sum == 0 {
                return None;
            }
            let file_end = sum - 1;
            let mut file_start: usize = 0;
            if let Some(sp) = rfind_byte(t, file_end, 32) {
                file_start = sp + 1;
            }
            let digits_start = file_end + 1;
            let mut digits_end = digits_start;
            while digits_end < tvec.len() && t[digits_end] >= 48 && t[digits_end] <= 57
                invariant
                    digits_start <= digits_end <= tvec.len(),
                    t@.len() == tvec.len(),
                decreases tvec.len() - digits_end,
            {
                digits_end += 1;
            }
            if digits_end > digits_start && file_start < file_end {
                if let Some(v) = crate::text::parse_u64_range(t, digits_start, digits_end) {
                    if v <= u32::MAX as u64 {
                        let file = crate::text::sub_bytes(t, file_start, file_end);
                        return Some((string_of_bytes(file.as_slice()), v as u32));
                    }
                }
            }
        }
        let arrow_pat = "-->".as_bytes();
        if crate::text::starts_with(t, arrow_pat) {
            let (la, lb) = crate::text::trim_range(t, arrow_pat.len(), tvec.len());
            if let Some((file, line_no, _col)) = crate::quality::lint::parse_location(t, la, lb) {
                return Some((file, line_no));
            }
        }
        start = if end < n {
            end + 1
        } else {
            n
        };
    }
    None
}

/// The last occurrence of byte `b` strictly before `upto`.
fn rfind_byte(s: &[u8], upto: usize, b: u8) -> (r: Option<usize>)
    requires
        upto <= s@.len(),
    ensures
        r matches Some(j) ==> j < upto && s@[j as int] == b,
{
    let mut i: usize = upto;
    while i > 0
        invariant
            i <= upto <= s@.len(),
        decreases i,
    {
        i -= 1;
        if s[i] == b {
            return Some(i);
        }
    }
    None
}

/// Extract structured test failures: JSON events from standard output
/// first, plain-text parsing of both streams as the fallback.
pub fn extract_test_failures(stdout: &str, stderr: &str) -> (r: Vec<GateFailureDetail>)
    ensures
        r@.len() <= 20,
        forall|i: int| 0 <= i < r@.len() ==> (#[trigger] r@[i]).category == FailureCategory::Test,
{
    let failures = parse_test_json(stdout);
    if failures.len() > 0 {
        return failures;
    }
    parse_test_text(stdout, stderr)
}

/// A numbered summary of test failures, with locations and assertion info
/// where known.
pub fn format_test_summary(failures: &Vec<GateFailureDetail>) -> (r: String)
{
    if failures.len() == 0 {
        return String::from_str("No specific failures extracted");
    }
    let mut summary = String::new();
    push_dec(&mut summary, failures.len() as u64);
    summary.append(" test(s) failed:\n");
    let mut i: usize = 0;
    while i < failures.len()
        invariant
            i <= failures@.len(),
        decreases failures@.len() - i,
    {
        let f = &failures[i];
        push_list_index(&mut summary, (i as u64) + 1);
        match &f.error_code {
            Some(test_name) => {
                summary.append(test_name.as_str());
                match (&f.file, &f.line) {
                    (Some(file), Some(line)) => {
                        summary.append(" (");
                        summary.append(file.as_str());
                        summary.append(":");
                        push_dec(&mut summary, *line as u64);
                        summary.append(")");
                    },
                    (Some(file), None) => {
                        summary.append(" (");
                        summary.append(file.as_str());
                        summary.append(")");
                    },
                    _ => {},
                }
                summary.append("\n");
                if let Some(suggestion) = &f.suggestion {
                    summary.append("   ");
                    summary.append(suggestion.as_str());
                    summary.append("\n");
                }
            },
            None => {
                summary.append(f.message.as_str());
                summary.append("\n");
            },
        }
        i += 1;
    }
    summary
}

} // verus!
