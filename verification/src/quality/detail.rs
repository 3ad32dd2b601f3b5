//! Gate results, structured failure details and progress updates.

use vstd::prelude::*;

use crate::text::{dec_chars, dec_digit, push_dec, push_digit};

verus! {

/// Category of a quality gate failure.
#[derive(Clone, Copy, Debug, PartialEq, Eq, Structural)]
pub enum FailureCategory {
    /// Code linting failure.
    Lint,
    /// Type checking failure.
    TypeCheck,
    /// Test failure.
    Test,
    /// Code formatting failure.
    Format,
    /// Security vulnerability detected.
    Security,
    /// Code coverage below threshold.
    Coverage,
}

impl FailureCategory {
    /// The stable snake_case label of this category, as it is serialized.
    pub fn label(&self) -> (r: &'static str)
        ensures
            *self == FailureCategory::Lint ==> r@ == "lint"@,
            *self == FailureCategory::TypeCheck ==> r@ == "type_check"@,
            *self == FailureCategory::Test ==> r@ == "test"@,
            *self == FailureCategory::Format ==> r@ == "format"@,
            *self == FailureCategory::Security ==> r@ == "security"@,
            *self == FailureCategory::Coverage ==> r@ == "coverage"@,
    {
        match self {
            FailureCategory::Lint => "lint",
            FailureCategory::TypeCheck => "type_check",
            FailureCategory::Test => "test",
            FailureCategory::Format => "format",
            FailureCategory::Security => "security",
            FailureCategory::Coverage => "coverage",
        }
    }
}

/// Structured details about a quality gate failure.
#[derive(Clone, Debug)]
pub struct GateFailureDetail {
    /// File path where the failure occurred, if known.
    pub file: Option<String>,
    /// Line number where the failure occurred, if known.
    pub line: Option<u32>,
    /// Column number where the failure occurred, if known.
    pub column: Option<u32>,
    /// Error code or identifier.
    pub error_code: Option<String>,
    /// Category of the failure.
    pub category: FailureCategory,
    /// Human-readable message describing the failure.
    pub message: String,
    /// Suggested fix or remediation action.
    pub suggestion: Option<String>,
    /// URL to documentation about this type of failure.
    pub doc_url: Option<String>,
}

impl GateFailureDetail {
    /// A failure detail with only a category and message.
    pub fn new(category: FailureCategory, message: String) -> (r: Self)
        ensures
            r.category == category,
            r.message == message,
            r.file is None,
            r.line is None,
            r.column is None,
            r.error_code is None,
            r.suggestion is None,
            r.doc_url is None,
    {
        GateFailureDetail {
            file: None,
            line: None,
            column: None,
            error_code: None,
            category,
            message,
            suggestion: None,
            doc_url: None,
        }
    }

    /// The same detail with the file set.
    pub fn with_file(self, file: String) -> (r: Self)
        ensures
            r == (GateFailureDetail { file: Some(file), ..self }),
    {
        GateFailureDetail { file: Some(file), ..self }
    }

    /// The same detail with the line set.
    pub fn with_line(self, line: u32) -> (r: Self)
        ensures
            r == (GateFailureDetail { line: Some(line), ..self }),
    {
        GateFailureDetail { line: Some(line), ..self }
    }

    /// The same detail with the column set.
    pub fn with_column(self, column: u32) -> (r: Self)
        ensures
            r == (GateFailureDetail { column: Some(column), ..self }),
    {
        GateFailureDetail { column: Some(column), ..self }
    }

    /// The same detail with file, line and optional column set.
    pub fn with_location(self, file: String, line: u32, column: Option<u32>) -> (r: Self)
        ensures
            r == (GateFailureDetail { file: Some(file), line: Some(line), column, ..self }),
    {
        GateFailureDetail { file: Some(file), line: Some(line), column, ..self }
    }

    /// The same detail with the error code set.
    pub fn with_error_code(self, error_code: String) -> (r: Self)
        ensures
            r == (GateFailureDetail { error_code: Some(error_code), ..self }),
    {
        GateFailureDetail { error_code: Some(error_code), ..self }
    }

    /// The same detail with the suggestion set.
    pub fn with_suggestion(self, suggestion: String) -> (r: Self)
        ensures
            r == (GateFailureDetail { suggestion: Some(suggestion), ..self }),
    {
        GateFailureDetail { suggestion: Some(suggestion), ..self }
    }

    /// The same detail with the documentation URL set.
    pub fn with_doc_url(self, doc_url: String) -> (r: Self)
        ensures
            r == (GateFailureDetail { doc_url: Some(doc_url), ..self }),
    {
        GateFailureDetail { doc_url: Some(doc_url), ..self }
    }
}

/// Progress state of a quality gate.
#[derive(Clone, Copy, Debug, PartialEq, Eq, Structural)]
pub enum GateProgressState {
    /// This gate is currently running.
    Running,
    /// This gate completed successfully.
    Passed,
    /// This gate failed.
    Failed,
}

/// A span of time at nanosecond resolution, for gate timing.
#[derive(Clone, Copy, Debug, PartialEq, Eq, Structural)]
pub struct GateDuration {
    pub nanos: u64,
}

impl GateDuration {
    /// A duration of `nanos` nanoseconds.
    pub fn from_nanos(nanos: u64) -> (r: Self)
        ensures
            r.nanos == nanos,
    {
        GateDuration { nanos }
    }

    /// A duration of `millis` milliseconds.
    pub fn from_millis(millis: u64) -> (r: Self)
        requires
            millis <= u64::MAX / 1_000_000,
        ensures
            r.nanos == millis * 1_000_000,
    {
        GateDuration { nanos: millis * 1_000_000 }
    }

    /// A duration of `secs` seconds.
    pub fn from_secs(secs: u64) -> (r: Self)
        requires
            secs <= u64::MAX / 1_000_000_000,
        ensures
            r.nanos == secs * 1_000_000_000,
    {
        GateDuration { nanos: secs * 1_000_000_000 }
    }

    /// The duration in whole nanoseconds.
    pub fn as_nanos(&self) -> (r: u64)
        ensures
            r == self.nanos,
    {
        self.nanos
    }

    /// The duration in whole milliseconds.
    pub fn as_millis(&self) -> (r: u64)
        ensures
            r == self.nanos / 1_000_000,
    {
        self.nanos / 1_000_000
    }

    /// The duration in whole seconds.
    pub fn as_secs(&self) -> (r: u64)
        ensures
            r == self.nanos / 1_000_000_000,
    {
        self.nanos / 1_000_000_000
    }
}

/// A progress update for one quality gate.
#[derive(Clone, Debug)]
pub struct GateProgressUpdate {
    /// Name of the quality gate.
    pub gate_name: String,
    /// Current progress state.
    pub state: GateProgressState,
    /// Duration of this gate's execution; set only once completed.
    pub duration: Option<GateDuration>,
}

impl GateProgressUpdate {
    /// A `Running` update.
    pub fn running(gate_name: String) -> (r: Self)
        ensures
            r.gate_name == gate_name,
            r.state == GateProgressState::Running,
            r.duration is None,
    {
        GateProgressUpdate { gate_name, state: GateProgressState::Running, duration: None }
    }

    /// A `Passed` update with its duration.
    pub fn passed(gate_name: String, duration: GateDuration) -> (r: Self)
        ensures
            r.gate_name == gate_name,
            r.state == GateProgressState::Passed,
            r.duration == Some(duration),
    {
        GateProgressUpdate { gate_name, state: GateProgressState::Passed, duration: Some(duration) }
    }

    /// A `Failed` update with its duration.
    pub fn failed(gate_name: String, duration: GateDuration) -> (r: Self)
        ensures
            r.gate_name == gate_name,
            r.state == GateProgressState::Failed,
            r.duration == Some(duration),
    {
        GateProgressUpdate { gate_name, state: GateProgressState::Failed, duration: Some(duration) }
    }

    /// Whether this update reports a running gate.
    pub fn is_running(&self) -> (r: bool)
        ensures
            r == (self.state == GateProgressState::Running),
    {
        matches!(self.state, GateProgressState::Running)
    }

    /// Whether this update reports a passed gate.
    pub fn is_passed(&self) -> (r: bool)
        ensures
            r == (self.state == GateProgressState::Passed),
    {
        matches!(self.state, GateProgressState::Passed)
    }

    /// Whether this update reports a failed gate.
    pub fn is_failed(&self) -> (r: bool)
        ensures
            r == (self.state == GateProgressState::Failed),
    {
        matches!(self.state, GateProgressState::Failed)
    }

    /// Whether this update reports a completed gate.
    pub fn is_completed(&self) -> (r: bool)
        ensures
            r == (self.state == GateProgressState::Passed || self.state
                == GateProgressState::Failed),
    {
        matches!(self.state, GateProgressState::Passed | GateProgressState::Failed)
    }

    /// Render the duration for display, when there is one: minutes and
    /// tenths of a second over a minute, else seconds and tenths.
    pub fn format_duration(&self) -> (r: Option<String>)
        ensures
            r is Some <==> self.duration is Some,
    {
        match self.duration {
            None => None,
            Some(d) => {
                let ms = d.as_millis();
                let mut out = String::new();
                proof {
                    reveal_strlit("m");
                    reveal_strlit(".");
                    reveal_strlit("s");
                }
                if ms >= 60_000 {
                    push_dec(&mut out, ms / 60_000);
                    out.append("m");
                    let tenths = (ms % 60_000 + 50) / 100;
                    push_dec(&mut out, tenths / 10);
                    out.append(".");
                    push_digit(&mut out, tenths % 10);
                    out.append("s");
                } else {
                    let tenths = (ms + 50) / 100;
                    push_dec(&mut out, tenths / 10);
                    out.append(".");
                    push_digit(&mut out, tenths % 10);
                    out.append("s");
                }
                Some(out)
            },
        }
    }
}

/// The result of running a single quality gate.
#[derive(Clone, Debug)]
pub struct GateResult {
    /// Name of the quality gate that was run.
    pub gate_name: String,
    /// Whether this gate passed.
    pub passed: bool,
    /// Human-readable message describing the result.
    pub message: String,
    /// Additional details about the result.
    pub details: Option<String>,
    /// Structured failure details.
    pub failures: Vec<GateFailureDetail>,
}

impl GateResult {
    /// A passing gate result.
    pub fn pass(gate_name: String, message: String) -> (r: Self)
        ensures
            r.gate_name == gate_name,
            r.passed,
            r.message == message,
            r.details is None,
            r.failures@.len() == 0,
    {
        GateResult { gate_name, passed: true, message, details: None, failures: Vec::new() }
    }

    /// A failing gate result.
    pub fn fail(
        gate_name: String,
        message: String,
        details: Option<String>,
        failures: Option<Vec<GateFailureDetail>>,
    ) -> (r: Self)
        ensures
            r.gate_name == gate_name,
            !r.passed,
            r.message == message,
            r.details == details,
            failures matches Some(f) ==> r.failures == f,
            failures is None ==> r.failures@.len() == 0,
    {
        GateResult {
            gate_name,
            passed: false,
            message,
            details,
            failures: match failures {
                Some(f) => f,
                None => Vec::new(),
            },
        }
    }

    /// A skipped gate result; a skipped gate counts as passed.
    pub fn skipped(gate_name: String, reason: String) -> (r: Self)
        ensures
            r.gate_name == gate_name,
            r.passed,
            r.message@ == "Skipped: "@ + reason@,
            r.details is None,
            r.failures@.len() == 0,
    {
        let mut message = String::from_str("Skipped: ");
        message.append(reason.as_str());
        GateResult { gate_name, passed: true, message, details: None, failures: Vec::new() }
    }
}

/// Append `n` followed by `". "`-style list numbering: `n`, a dot, a space.
pub fn push_list_index(s: &mut String, n: u64)
    ensures
        final(s)@ == old(s)@ + dec_chars(n as int) + ". "@,
{
    push_dec(s, n);
    s.append(". ");
    proof {
        assert(s@ =~= old(s)@ + dec_chars(n as int) + ". "@);
    }
}

} // verus!
