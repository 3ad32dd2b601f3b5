//! The quality gate checker: profiles, captured tool runs, and the five
//! gates — coverage, tests, lint, format, security audit — applied to them.
//!
//! Running the external tools is input/output work done outside the
//! library; their captured outcomes are handed in as [`ToolRun`] values.

use vstd::prelude::*;

use crate::json::JsonValue;
use crate::quality::audit;
use crate::quality::coverage::{parse_coverage_percentage, push_percent_hundredths};
use crate::quality::detail::{push_list_index, FailureCategory, GateDuration, GateFailureDetail,
    GateProgressUpdate, GateResult};
use crate::quality::lint::{extract_clippy_errors, format_clippy_summary};
use crate::quality::testparse::{extract_test_failures, format_test_summary};
use crate::text::{push_dec, string_of_bytes};

verus! {

/// The number of passed results in a result set.
pub open spec fn spec_passed_count(results: Seq<GateResult>) -> int
    decreases results.len(),
{
    if results.len() == 0 {
        0
    } else {
        spec_passed_count(results.drop_last()) + (if results.last().passed {
            1int
        } else {
            0int
        })
    }
}

/// Whether a failure detail carries the fixed format-fix suggestion.
pub open spec fn has_fmt_suggestion(d: GateFailureDetail) -> bool {
    d.suggestion matches Some(s) && s@ == "Run cargo fmt to fix"@
}

/// Testing configuration of a quality profile.
#[derive(Clone, Debug)]
pub struct TestingConfig {
    /// Required line coverage in whole percent; 0 skips the coverage gate.
    pub coverage_threshold: u8,
    /// Whether unit tests are required.
    pub unit_tests: bool,
    /// Whether integration tests are required.
    pub integration_tests: bool,
}

/// Continuous-integration configuration of a quality profile.
#[derive(Clone, Debug)]
pub struct CiConfig {
    /// Whether CI checks are required.
    pub required: bool,
    /// Whether the lint gate runs.
    pub lint_check: bool,
    /// Whether the format gate runs.
    pub format_check: bool,
}

/// Security configuration of a quality profile.
#[derive(Clone, Debug)]
pub struct SecurityConfig {
    /// Whether the security audit gate runs.
    pub cargo_audit: bool,
    /// Whether dependency policy checking runs.
    pub cargo_deny: bool,
    /// Whether static analysis runs.
    pub sast: bool,
}

/// A quality profile: which gates run and with what thresholds.
#[derive(Clone, Debug)]
pub struct Profile {
    /// A description of the profile.
    pub description: String,
    /// Testing configuration.
    pub testing: TestingConfig,
    /// CI configuration.
    pub ci: CiConfig,
    /// Security configuration.
    pub security: SecurityConfig,
}

impl Default for Profile {
    /// A profile with every gate disabled.
    fn default() -> (r: Self)
        ensures
            r.testing.coverage_threshold == 0,
            !r.testing.unit_tests,
            !r.ci.lint_check,
            !r.ci.format_check,
            !r.security.cargo_audit,
    {
        Profile {
            description: String::new(),
            testing: TestingConfig {
                coverage_threshold: 0,
                unit_tests: false,
                integration_tests: false,
            },
            ci: CiConfig { required: false, lint_check: false, format_check: false },
            security: SecurityConfig { cargo_audit: false, cargo_deny: false, sast: false },
        }
    }
}

/// The captured outcome of one external tool invocation.
#[derive(Clone, Debug)]
pub enum ToolRun {
    /// The tool could not be found or started.
    Unavailable,
    /// The tool ran to completion.
    Ran {
        /// Whether it exited successfully.
        exit_ok: bool,
        /// Its captured standard output.
        stdout: String,
        /// Its captured standard error.
        stderr: String,
    },
}

impl ToolRun {
    /// An unavailable tool.
    pub fn unavailable() -> (r: Self)
        ensures
            r is Unavailable,
    {
        ToolRun::Unavailable
    }

    /// A completed run.
    pub fn ran(exit_ok: bool, stdout: String, stderr: String) -> (r: Self)
        ensures
            r == (ToolRun::Ran { exit_ok, stdout, stderr }),
    {
        ToolRun::Ran { exit_ok, stdout, stderr }
    }
}

/// The captured tool runs that one pass over the gates consumes.
#[derive(Clone, Debug)]
pub struct GateToolRuns {
    pub coverage: ToolRun,
    pub tests: ToolRun,
    pub lint: ToolRun,
    pub format_check: ToolRun,
    pub audit: ToolRun,
}

impl GateToolRuns {
    /// Tool runs with every tool unavailable.
    pub fn none() -> (r: Self)
        ensures
            r.coverage is Unavailable,
            r.tests is Unavailable,
            r.lint is Unavailable,
            r.format_check is Unavailable,
            r.audit is Unavailable,
    {
        GateToolRuns {
            coverage: ToolRun::Unavailable,
            tests: ToolRun::Unavailable,
            lint: ToolRun::Unavailable,
            format_check: ToolRun::Unavailable,
            audit: ToolRun::Unavailable,
        }
    }
}

/// A checker that applies quality gates under a profile.
#[derive(Clone, Debug)]
pub struct QualityGateChecker {
    /// The quality profile to check against.
    pub profile: Profile,
    /// The root directory of the project being checked.
    pub project_root: String,
}

impl QualityGateChecker {
    /// A checker for the given profile and project root.
    pub fn new(profile: Profile, project_root: String) -> (r: Self)
        ensures
            r.profile == profile,
            r.project_root == project_root,
    {
        QualityGateChecker { profile, project_root }
    }

    /// The profile in use.
    pub fn profile(&self) -> (r: &Profile)
        ensures
            r == self.profile,
    {
        &self.profile
    }

    /// The project root directory.
    pub fn project_root(&self) -> (r: &String)
        ensures
            r == self.project_root,
    {
        &self.project_root
    }

    /// The coverage gate: skipped at threshold zero; otherwise the captured
    /// coverage run must parse to a percentage at or above the threshold.
    pub fn check_coverage(&self, run: &ToolRun) -> (r: GateResult)
        ensures
            r.gate_name@ == "coverage"@,
            self.profile.testing.coverage_threshold == 0 ==> r.passed && r.message@
                == "Skipped: Coverage threshold is 0 - no check required"@,
            self.profile.testing.coverage_threshold > 0 && run is Unavailable ==> !r.passed,
            self.profile.testing.coverage_threshold > 0 ==> (run matches ToolRun::Ran {
                exit_ok: false,
                ..
            } ==> !r.passed),
            self.profile.testing.coverage_threshold > 0 ==> (match *run {
                ToolRun::Ran { exit_ok, ref stdout, .. } => exit_ok ==> (match spec_json_cov(
                    stdout@,
                ) {
                    Some(p) => r.passed == (p >= self.profile.testing.coverage_threshold as int
                        * 100),
                    None => true,
                }),
                _ => true,
            }),
    {
        let threshold = self.profile.testing.coverage_threshold;
        if threshold == 0 {
            proof {
                reveal_strlit("Skipped: ");
                reveal_strlit("Coverage threshold is 0 - no check required");
                reveal_strlit("Skipped: Coverage threshold is 0 - no check required");
                assert("Skipped: "@ + "Coverage threshold is 0 - no check required"@
                    =~= "Skipped: Coverage threshold is 0 - no check required"@);
            }
            return GateResult::skipped(
                String::from_str("coverage"),
                String::from_str("Coverage threshold is 0 - no check required"),
            );
        }
        match run {
            ToolRun::Unavailable => GateResult::fail(
                String::from_str("coverage"),
                String::from_str("No coverage tool available"),
                Some(
                    String::from_str(
                        "Install cargo-llvm-cov: cargo install cargo-llvm-cov\nOr install cargo-tarpaulin: cargo install cargo-tarpaulin",
                    ),
                ),
                None,
            ),
            ToolRun::Ran { exit_ok, stdout, stderr } => {
                if !*exit_ok {
                    let mut details = String::from_str("stderr: ");
                    details.append(stderr.as_str());
                    return GateResult::fail(
                        String::from_str("coverage"),
                        String::from_str("cargo llvm-cov failed"),
                        Some(details),
                        None,
                    );
                }
                let from_json = parse_llvm_cov_json(stdout.as_str());
                let coverage = match from_json {
                    Some(c) => Some(c),
                    None => parse_coverage_percentage(stdout.as_str()),
                };
                match coverage {
                    Some(c) => self.evaluate_coverage(c, "cargo-llvm-cov"),
                    None => {
                        let mut details = String::from_str("Output: ");
                        details.append(stdout.as_str());
                        GateResult::fail(
                            String::from_str("coverage"),
                            String::from_str("Failed to parse llvm-cov output"),
                            Some(details),
                            None,
                        )
                    },
                }
            },
        }
    }

    /// Judge a measured coverage, in hundredths of a percent, against the
    /// profile threshold: passing exactly when it reaches the threshold.
    pub fn evaluate_coverage(&self, coverage_hundredths: u64, tool_name: &str) -> (r: GateResult)
        ensures
            r.gate_name@ == "coverage"@,
            r.passed == (coverage_hundredths >= self.profile.testing.coverage_threshold as u64
                * 100),
    {
        let threshold_hundredths: u64 = (self.profile.testing.coverage_threshold as u64) * 100;
        if coverage_hundredths >= threshold_hundredths {
            let mut message = String::from_str("Coverage ");
            push_percent_hundredths(&mut message, coverage_hundredths);
            message.append("% meets threshold of ");
            push_dec(&mut message, self.profile.testing.coverage_threshold as u64);
            message.append("% (via ");
            message.append(tool_name);
            message.append(")");
            GateResult::pass(String::from_str("coverage"), message)
        } else {
            let mut message = String::from_str("Coverage ");
            push_percent_hundredths(&mut message, coverage_hundredths);
            message.append("% is below threshold of ");
            push_dec(&mut message, self.profile.testing.coverage_threshold as u64);
            message.append("%");
            let mut details = String::from_str("Measured with ");
            details.append(tool_name);
            details.append(". Increase test coverage to meet the threshold.");
            GateResult::fail(String::from_str("coverage"), message, Some(details), None)
        }
    }

    /// The lint gate: skipped unless enabled; a clean exit passes, anything
    /// else is reported with extracted diagnostics.
    pub fn check_lint(&self, run: &ToolRun) -> (r: GateResult)
        ensures
            r.gate_name@ == "lint"@,
            !self.profile.ci.lint_check ==> r.passed,
            self.profile.ci.lint_check ==> (run matches ToolRun::Ran { exit_ok, .. } ==> r.passed
                == exit_ok),
    {
        if !self.profile.ci.lint_check {
            return GateResult::skipped(
                String::from_str("lint"),
                String::from_str("Lint checking not enabled in profile"),
            );
        }
        match run {
            ToolRun::Unavailable => GateResult::fail(
                String::from_str("lint"),
                String::from_str("Failed to run cargo clippy"),
                Some(String::from_str("Error: tool not found. Is clippy installed?")),
                None,
            ),
            ToolRun::Ran { exit_ok, stdout, stderr } => {
                if *exit_ok {
                    GateResult::pass(
                        String::from_str("lint"),
                        String::from_str("No clippy warnings found"),
                    )
                } else {
                    let failures = extract_clippy_errors(stdout.as_str(), stderr.as_str());
                    let details = format_clippy_summary(&failures);
                    GateResult::fail(
                        String::from_str("lint"),
                        String::from_str("Clippy found warnings or errors"),
                        Some(details),
                        Some(failures),
                    )
                }
            },
        }
    }

    /// The tests gate: skipped unless enabled; a clean exit passes, anything
    /// else is reported with extracted test failures.
    pub fn check_tests(&self, run: &ToolRun) -> (r: GateResult)
        ensures
            r.gate_name@ == "tests"@,
            !self.profile.testing.unit_tests ==> r.passed,
            self.profile.testing.unit_tests ==> (run matches ToolRun::Ran { exit_ok, .. }
                ==> r.passed == exit_ok),
    {
        if !self.profile.testing.unit_tests {
            return GateResult::skipped(
                String::from_str("tests"),
                String::from_str("Unit testing not enabled in profile"),
            );
        }
        match run {
            ToolRun::Unavailable => GateResult::fail(
                String::from_str("tests"),
                String::from_str("Failed to run cargo test"),
                Some(String::from_str("Error: tool not found")),
                None,
            ),
            ToolRun::Ran { exit_ok, stdout, stderr } => {
                if *exit_ok {
                    GateResult::pass(String::from_str("tests"), String::from_str("All tests passed"))
                } else {
                    let failures = extract_test_failures(stdout.as_str(), stderr.as_str());
                    let details = format_test_summary(&failures);
                    let mut message = String::new();
                    push_dec(&mut message, failures.len() as u64);
                    if failures.len() == 1 {
                        message.append(" test failed");
                    } else {
                        message.append(" tests failed");
                    }
                    GateResult::fail(String::from_str("tests"), message, Some(details), Some(failures))
                }
            },
        }
    }

    /// The format gate: skipped unless enabled; a clean exit passes,
    /// anything else is reported with one failure per unformatted file.
    pub fn check_format(&self, run: &ToolRun) -> (r: GateResult)
        ensures
            r.gate_name@ == "format"@,
            !self.profile.ci.format_check ==> r.passed,
            self.profile.ci.format_check ==> (run matches ToolRun::Ran { exit_ok, .. } ==> r.passed
                == exit_ok),
    {
        if !self.profile.ci.format_check {
            return GateResult::skipped(
                String::from_str("format"),
                String::from_str("Format checking not enabled in profile"),
            );
        }
        match run {
            ToolRun::Unavailable => GateResult::fail(
                String::from_str("format"),
                String::from_str("Failed to run cargo fmt"),
                Some(String::from_str("Error: tool not found. Is rustfmt installed?")),
                None,
            ),
            ToolRun::Ran { exit_ok, stdout, stderr } => {
                if *exit_ok {
                    GateResult::pass(
                        String::from_str("format"),
                        String::from_str("All files are properly formatted"),
                    )
                } else {
                    let failures = extract_format_errors(stdout.as_str(), stderr.as_str());
                    let details = format_format_summary(&failures);
                    let mut message = String::new();
                    push_dec(&mut message, failures.len() as u64);
                    if failures.len() == 1 {
                        message.append(" file need formatting");
                    } else {
                        message.append(" files need formatting");
                    }
                    GateResult::fail(String::from_str("format"), message, Some(details), Some(failures))
                }
            },
        }
    }

    /// The security audit gate: skipped unless enabled; structured output
    /// decides when present, else the exit status with text extraction.
    pub fn check_security_audit(&self, run: &ToolRun) -> (r: GateResult)
        ensures
            r.gate_name@ == "security_audit"@,
            !self.profile.security.cargo_audit ==> r.passed,
            self.profile.security.cargo_audit && run is Unavailable ==> !r.passed,
            self.profile.security.cargo_audit ==> (run matches ToolRun::Ran {
                exit_ok,
                stdout,
                ..
            } ==> match crate::json::json_of(stdout@) {
                Some(v) => r.passed == (crate::quality::audit::spec_audit_count(v) == 0),
                None => r.passed == exit_ok,
            }),
    {
        if !self.profile.security.cargo_audit {
            return GateResult::skipped(
                String::from_str("security_audit"),
                String::from_str("Security audit not enabled in profile"),
            );
        }
        match run {
            ToolRun::Unavailable => GateResult::fail(
                String::from_str("security_audit"),
                String::from_str("cargo-audit is not installed"),
                Some(
                    String::from_str(
                        "Install cargo-audit: cargo install cargo-audit\ncargo-audit checks for known security vulnerabilities in dependencies.",
                    ),
                ),
                None,
            ),
            ToolRun::Ran { exit_ok, stdout, stderr } => {
                if let Some(result) = audit::parse_audit_json(stdout.as_str()) {
                    return result;
                }
                if *exit_ok {
                    GateResult::pass(
                        String::from_str("security_audit"),
                        String::from_str("No known vulnerabilities found"),
                    )
                } else {
                    let failures = audit::extract_audit_vulnerabilities(
                        stdout.as_str(),
                        stderr.as_str(),
                    );
                    let details = audit::format_audit_summary(&failures);
                    GateResult::fail(
                        String::from_str("security_audit"),
                        String::from_str("Security vulnerabilities found"),
                        Some(details),
                        Some(failures),
                    )
                }
            },
        }
    }

    /// Run all five gates in order — coverage, tests, lint, format,
    /// security audit — against the captured tool runs.
    pub fn run_all(&self, runs: &GateToolRuns) -> (r: Vec<GateResult>)
        ensures
            r@.len() == 5,
            r@[0].gate_name@ == "coverage"@,
            r@[1].gate_name@ == "tests"@,
            r@[2].gate_name@ == "lint"@,
            r@[3].gate_name@ == "format"@,
            r@[4].gate_name@ == "security_audit"@,
    {
        let mut results: Vec<GateResult> = Vec::new();
        results.push(self.check_coverage(&runs.coverage));
        results.push(self.check_tests(&runs.tests));
        results.push(self.check_lint(&runs.lint));
        results.push(self.check_format(&runs.format_check));
        results.push(self.check_security_audit(&runs.audit));
        results
    }

    /// Run all five gates, recording a `Running` update before each and a
    /// `Passed` or `Failed` update with its measured duration after each.
    ///
    /// Returns each gate's result and the update sequence in emission order.
    pub fn run_all_gates_with_progress(&self, runs: &GateToolRuns) -> (r: (
        Vec<GateResult>,
        Vec<GateProgressUpdate>,
    ))
        ensures
            r.0@.len() == 5,
            r.1@.len() == 10,
            forall|g: int| 0 <= g < 5 ==> (#[trigger] r.1@[2 * g]).state
                == crate::quality::detail::GateProgressState::Running,
            forall|g: int| 0 <= g < 5 ==> (#[trigger] r.1@[2 * g + 1]).state == (if r.0@[g].passed {
                crate::quality::detail::GateProgressState::Passed
            } else {
                crate::quality::detail::GateProgressState::Failed
            }),
            forall|g: int| 0 <= g < 5 ==> (#[trigger] r.1@[2 * g]).gate_name@ == r.0@[
                g
            ].gate_name@,
            forall|g: int| 0 <= g < 5 ==> (#[trigger] r.1@[2 * g + 1]).gate_name@ == r.0@[
                g
            ].gate_name@,
            forall|g: int| 0 <= g < 5 ==> (#[trigger] r.1@[2 * g + 1]).duration is Some,
            r.0@[0].gate_name@ == "coverage"@ && r.0@[1].gate_name@ == "tests"@ && r.0@[
                2
            ].gate_name@ == "lint"@ && r.0@[3].gate_name@ == "format"@ && r.0@[4].gate_name@
                == "security_audit"@,
    {
        let mut results: Vec<GateResult> = Vec::new();
        let mut updates: Vec<GateProgressUpdate> = Vec::new();

        updates.push(GateProgressUpdate::running(String::from_str("coverage")));
        let start = crate::clock::instant_now();
        let result = self.check_coverage(&runs.coverage);
        let d = GateDuration::from_nanos(crate::clock::elapsed_nanos(&start));
        if result.passed {
            updates.push(GateProgressUpdate::passed(String::from_str("coverage"), d));
        } else {
            updates.push(GateProgressUpdate::failed(String::from_str("coverage"), d));
        }
        proof {
            assert(result.gate_name@ == "coverage"@);
        }
        results.push(result);

        updates.push(GateProgressUpdate::running(String::from_str("tests")));
        let start = crate::clock::instant_now();
        let result = self.check_tests(&runs.tests);
        let d = GateDuration::from_nanos(crate::clock::elapsed_nanos(&start));
        if result.passed {
            updates.push(GateProgressUpdate::passed(String::from_str("tests"), d));
        } else {
            updates.push(GateProgressUpdate::failed(String::from_str("tests"), d));
        }
        results.push(result);

        updates.push(GateProgressUpdate::running(String::from_str("lint")));
        let start = crate::clock::instant_now();
        let result = self.check_lint(&runs.lint);
        let d = GateDuration::from_nanos(crate::clock::elapsed_nanos(&start));
        if result.passed {
            updates.push(GateProgressUpdate::passed(String::from_str("lint"), d));
        } else {
            updates.push(GateProgressUpdate::failed(String::from_str("lint"), d));
        }
        results.push(result);

        updates.push(GateProgressUpdate::running(String::from_str("format")));
        let start = crate::clock::instant_now();
        let result = self.check_format(&runs.format_check);
        let d = GateDuration::from_nanos(crate::clock::elapsed_nanos(&start));
        if result.passed {
            updates.push(GateProgressUpdate::passed(String::from_str("format"), d));
        } else {
            updates.push(GateProgressUpdate::failed(String::from_str("format"), d));
        }
        results.push(result);

        updates.push(GateProgressUpdate::running(String::from_str("security_audit")));
        let start = crate::clock::instant_now();
        let result = self.check_security_audit(&runs.audit);
        let d = GateDuration::from_nanos(crate::clock::elapsed_nanos(&start));
        if result.passed {
            updates.push(GateProgressUpdate::passed(String::from_str("security_audit"), d));
        } else {
            updates.push(GateProgressUpdate::failed(String::from_str("security_audit"), d));
        }
        results.push(result);

        (results, updates)
    }

    /// Whether every gate in a result set passed.
    pub fn all_passed(results: &Vec<GateResult>) -> (r: bool)
        ensures
            r == forall|i: int| 0 <= i < results@.len() ==> (#[trigger] results@[i]).passed,
    {
        let mut i: usize = 0;
        while i < results.len()
            invariant
                i <= results@.len(),
                forall|k: int| 0 <= k < i ==> (#[trigger] results@[k]).passed,
            decreases results@.len() - i,
        {
            if !results[i].passed {
                return false;
            }
            i += 1;
        }
        true
    }

    /// The names of the failing gates, in order.
    pub open spec fn spec_failed_names(results: Seq<GateResult>) -> Seq<Seq<char>>
        decreases results.len(),
    {
        if results.len() == 0 {
            Seq::empty()
        } else {
            let rest = Self::spec_failed_names(results.drop_last());
            if results.last().passed {
                rest
            } else {
                rest.push(results.last().gate_name@)
            }
        }
    }

    /// The names joined with `, `.
    pub open spec fn spec_joined(names: Seq<Seq<char>>) -> Seq<char>
        decreases names.len(),
    {
        if names.len() == 0 {
            Seq::empty()
        } else if names.len() == 1 {
            names[0]
        } else {
            Self::spec_joined(names.drop_last()) + ", "@ + names.last()
        }
    }

    /// A one-line summary of a result set: all passed, or the failed names.
    pub fn summary(results: &Vec<GateResult>) -> (r: String)
        ensures
            (forall|i: int| 0 <= i < results@.len() ==> (#[trigger] results@[i]).passed) ==> r@
                == "All "@ + crate::text::dec_chars(results@.len() as int) + " gates passed"@,
            !(forall|i: int| 0 <= i < results@.len() ==> (#[trigger] results@[i]).passed) ==> r@
                == crate::text::dec_chars(spec_passed_count(results@)) + "/"@
                + crate::text::dec_chars(results@.len() as int) + " gates passed. Failed: "@
                + Self::spec_joined(Self::spec_failed_names(results@)),
    {
        let mut passed: usize = 0;
        let mut failed_names: Vec<&str> = Vec::new();
        let mut i: usize = 0;
        while i < results.len()
            invariant
                i <= results@.len(),
                passed <= i,
                passed == spec_passed_count(results@.subrange(0, i as int)),
                failed_names@.len() == i - passed,
                failed_names@.map_values(|s: &str| s@) == Self::spec_failed_names(
                    results@.subrange(0, i as int),
                ),
            decreases results@.len() - i,
        {
            let ghost pre_names = failed_names@;
            proof {
                assert(results@.subrange(0, i + 1).drop_last() =~= results@.subrange(0, i as int));
                assert(results@.subrange(0, i + 1).last() == results@[i as int]);
            }
            if results[i].passed {
                passed += 1;
            } else {
                failed_names.push(results[i].gate_name.as_str());
                proof {
                    assert(failed_names@.map_values(|s: &str| s@) =~= pre_names.map_values(
                        |s: &str| s@,
                    ).push(results@[i as int].gate_name@));
                }
            }
            i += 1;
        }
        proof {
            assert(results@.subrange(0, results@.len() as int) =~= results@);
            if forall|k: int| 0 <= k < results@.len() ==> (#[trigger] results@[k]).passed {
                Self::lemma_all_passed_count(results@);
            } else {
                let w = choose|k: int|
                    0 <= k < results@.len() && !(#[trigger] results@[k]).passed;
                Self::lemma_not_all_passed_count(results@, w);
            }
        }
        if failed_names.len() == 0 {
            let mut out = String::from_str("All ");
            push_dec(&mut out, results.len() as u64);
            out.append(" gates passed");
            proof {
                assert(out@ =~= "All "@ + crate::text::dec_chars(results@.len() as int)
                    + " gates passed"@);
            }
            out
        } else {
            let mut out = String::new();
            push_dec(&mut out, passed as u64);
            out.append("/");
            push_dec(&mut out, results.len() as u64);
            out.append(" gates passed. Failed: ");
            let ghost prefix = out@;
            let ghost all_names = failed_names@.map_values(|s: &str| s@);
            let mut j: usize = 0;
            while j < failed_names.len()
                invariant
                    j <= failed_names@.len(),
                    all_names == failed_names@.map_values(|s: &str| s@),
                    j == 0 ==> out@ == prefix,
                    j > 0 ==> out@ == prefix + Self::spec_joined(all_names.take(j as int)),
                decreases failed_names@.len() - j,
            {
                let ghost pre_out = out@;
                if j > 0 {
                    out.append(", ");
                }
                out.append(failed_names[j]);
                proof {
                    assert(all_names.take(j + 1).drop_last() =~= all_names.take(j as int));
                    assert(all_names.take(j + 1).last() == all_names[j as int]);
                    assert(all_names[j as int] == failed_names@[j as int]@);
                    if j == 0 {
                        assert(all_names.take(1).len() == 1);
                        assert(Self::spec_joined(all_names.take(1)) == all_names[0]);
                        assert(out@ =~= prefix + Self::spec_joined(all_names.take(1)));
                    } else {
                        assert(Self::spec_joined(all_names.take(j + 1)) == Self::spec_joined(
                            all_names.take(j as int),
                        ) + ", "@ + all_names[j as int]);
                        assert(out@ =~= prefix + Self::spec_joined(all_names.take(j + 1)));
                    }
                }
                j += 1;
            }
            proof {
                assert(results@.subrange(0, results@.len() as int) =~= results@);
                assert(all_names.take(all_names.len() as int) =~= all_names);
                assert(all_names == Self::spec_failed_names(results@));
                assert(prefix =~= crate::text::dec_chars(spec_passed_count(results@)) + "/"@
                    + crate::text::dec_chars(results@.len() as int) + " gates passed. Failed: "@);
                assert(out@ == crate::text::dec_chars(spec_passed_count(results@)) + "/"@
                    + crate::text::dec_chars(results@.len() as int) + " gates passed. Failed: "@
                    + Self::spec_joined(Self::spec_failed_names(results@)));
            }
            out
        }
    }

    /// A set whose members all passed counts fully.
    proof fn lemma_all_passed_count(results: Seq<GateResult>)
        requires
            forall|k: int| 0 <= k < results.len() ==> (#[trigger] results[k]).passed,
        ensures
            spec_passed_count(results) == results.len(),
        decreases results.len(),
    {
        if results.len() > 0 {
            Self::lemma_all_passed_count(results.drop_last());
        }
    }

    /// A set with a failing member counts short of its length.
    proof fn lemma_not_all_passed_count(results: Seq<GateResult>, w: int)
        requires
            0 <= w < results.len(),
            !results[w].passed,
        ensures
            spec_passed_count(results) < results.len(),
            spec_passed_count(results) >= 0,
        decreases results.len(),
    {
        if results.len() > 0 {
            if w == results.len() - 1 {
                Self::lemma_count_bounds(results.drop_last());
            } else {
                Self::lemma_not_all_passed_count(results.drop_last(), w);
            }
        }
    }

    /// The passed count lies between zero and the set's length.
    proof fn lemma_count_bounds(results: Seq<GateResult>)
        ensures
            0 <= spec_passed_count(results) <= results.len(),
        decreases results.len(),
    {
        if results.len() > 0 {
            Self::lemma_count_bounds(results.drop_last());
        }
    }
}

/// The index of the first `.` byte in `w`, or `w`'s length.
pub open spec fn spec_dot_index(w: Seq<u8>) -> int {
    if exists|k: int|
        0 <= k < w.len() && w[k] == 46 && (forall|j: int| 0 <= j < k ==> w[j] != 46) {
        choose|k: int|
            0 <= k < w.len() && w[k] == 46 && (forall|j: int| 0 <= j < k ==> w[j] != 46)
    } else {
        w.len() as int
    }
}

/// A decimal text with an optional fraction, read into hundredths:
/// `87.32` is 8732, a fraction keeps its first two digits, and a missing
/// integer part, a fraction without a leading digit, or an overflowing
/// value refuses the text.
pub open spec fn spec_hundredths(w: Seq<u8>) -> Option<int> {
    let d = spec_dot_index(w);
    let ip = w.subrange(0, d);
    if !(ip.len() > 0 && crate::text::all_digits(ip) && crate::text::dec_value(ip) <= u64::MAX) {
        None
    } else {
        let int_part = crate::text::dec_value(ip);
        let frac: Option<int> = if d == w.len() {
            Some(0int)
        } else if d + 1 < w.len() && 48 <= w[d + 1] <= 57 {
            Some(
                (w[d + 1] - 48) * 10 + (if d + 2 < w.len() && 48 <= w[d + 2] <= 57 {
                    (w[d + 2] - 48) as int
                } else {
                    0int
                }),
            )
        } else {
            None
        };
        match frac {
            None => None,
            Some(f) => if int_part * 100 + f <= u64::MAX {
                Some(int_part * 100 + f)
            } else {
                None
            },
        }
    }
}

/// The total line-coverage percentage of a structured coverage document,
/// in hundredths: `data[0].totals.lines.percent`, read as a decimal.
pub open spec fn spec_llvm_cov_pct(v: JsonValue) -> Option<int> {
    match crate::json::spec_get(v, "data"@) {
        Some(d) => match d {
            JsonValue::Array(arr) => if arr@.len() == 0 {
                None
            } else {
                match crate::json::spec_get(arr@[0], "totals"@) {
                    Some(t) => match crate::json::spec_get(t, "lines"@) {
                        Some(l) => match crate::json::spec_get(l, "percent"@) {
                            Some(p) => match p {
                                JsonValue::Num(txt) => spec_hundredths(
                                    vstd::utf8::encode_utf8(txt@),
                                ),
                                _ => None,
                            },
                            None => None,
                        },
                        None => None,
                    },
                    None => None,
                }
            },
            _ => None,
        },
        None => None,
    }
}

/// The coverage percentage that structured JSON output yields, if any:
/// nothing when the text is not JSON or lacks the percentage path.
pub open spec fn spec_json_cov(s: Seq<char>) -> Option<int> {
    match crate::json::json_of(s) {
        Some(doc) => spec_llvm_cov_pct(doc),
        None => None,
    }
}

/// Read the total line-coverage percentage, in hundredths, out of
/// structured coverage JSON: `data[0].totals.lines.percent`.
pub fn parse_llvm_cov_json(json_str: &str) -> (r: Option<u64>)
    ensures
        match r {
            Some(v) => spec_json_cov(json_str@) == Some(v as int),
            None => spec_json_cov(json_str@) is None,
        },
{
    let parsed = match crate::json::parse_json(json_str) {
        Some(v) => v,
        None => {
            return None;
        },
    };
    let percent = match parsed.get("data") {
        Some(data) => match data.as_array() {
            Some(arr) => {
                if arr.len() == 0 {
                    return None;
                }
                match arr[0].get("totals") {
                    Some(totals) => match totals.get("lines") {
                        Some(lines) => match lines.get("percent") {
                            Some(p) => match p {
                                JsonValue::Num(t) => Some(String::from_str(t.as_str())),
                                _ => None,
                            },
                            None => None,
                        },
                        None => None,
                    },
                    None => None,
                }
            },
            None => None,
        },
        None => None,
    };
    match percent {
        Some(t) => num_text_to_hundredths(t.as_str()),
        None => None,
    }
}

/// Parse a decimal number text, with an optional fraction, into hundredths.
pub fn num_text_to_hundredths(t: &str) -> (r: Option<u64>)
    ensures
        match r {
            Some(v) => spec_hundredths(vstd::utf8::encode_utf8(t@)) == Some(v as int),
            None => spec_hundredths(vstd::utf8::encode_utf8(t@)) is None,
        },
{
    let b = t.as_bytes();
    let n = b.len();
    let dot = crate::text::find_byte(b, 0, 46);
    let int_end = match dot {
        Some(d) => d,
        None => n,
    };
    proof {
        let w = b@;
        match dot {
            Some(d) => {
                assert(0 <= d < w.len() && w[d as int] == 46 && (forall|j: int|
                    0 <= j < d ==> w[j] != 46));
                let c = choose|k: int|
                    0 <= k < w.len() && w[k] == 46 && (forall|j: int| 0 <= j < k ==> w[j] != 46);
                if c < d {
                    assert(w[c] != 46);
                }
                if (d as int) < c {
                    assert(w[d as int] != 46);
                }
                assert(spec_dot_index(w) == d);
            },
            None => {
                assert(forall|k: int| 0 <= k < w.len() ==> w[k] != 46);
                assert(spec_dot_index(w) == w.len());
            },
        }
    }
    let int_part = match crate::text::parse_u64_range(b, 0, int_end) {
        Some(v) => v,
        None => {
            return None;
        },
    };
    let mut frac: u64 = 0;
    if let Some(d) = dot {
        if d + 1 < n && b[d + 1] >= 48 && b[d + 1] <= 57 {
            frac = ((b[d + 1] - 48) as u64) * 10;
            if d + 2 < n && b[d + 2] >= 48 && b[d + 2] <= 57 {
                frac = frac + ((b[d + 2] - 48) as u64);
            }
        } else {
            return None;
        }
    }
    if int_part <= (u64::MAX - frac) / 100 {
        proof {
            assert(int_part * 100 + frac <= u64::MAX) by (nonlinear_arith)
                requires
                    int_part <= (u64::MAX - frac) / 100,
                    frac <= u64::MAX,
            ;
        }
        Some(int_part * 100 + frac)
    } else {
        proof {
            assert(int_part * 100 + frac > u64::MAX) by (nonlinear_arith)
                requires
                    int_part > (u64::MAX - frac) / 100,
                    frac <= 99,
            ;
        }
        None
    }
}

/// Extract structured format failures: one per `Diff in <file>` line of the
/// format tool's output, truncated to twenty; bare standard error text
/// becomes one generic failure.
pub fn extract_format_errors(stdout: &str, stderr: &str) -> (r: Vec<GateFailureDetail>)
    ensures
        r@.len() <= 20,
        forall|i: int| 0 <= i < r@.len() ==> (#[trigger] r@[i]).category == FailureCategory::Format,
        forall|i: int| 0 <= i < r@.len() ==> has_fmt_suggestion(#[trigger] r@[i]),
{
    let mut failures: Vec<GateFailureDetail> = Vec::new();
    let bytes = stdout.as_bytes();
    let n = bytes.len();
    let mut start: usize = 0;
    while start < n
        invariant
            start <= n,
            n == bytes@.len(),
            failures@.len() <= 20,
            forall|i: int| 0 <= i < failures@.len() ==> (#[trigger] failures@[i]).category
                == FailureCategory::Format,
            forall|i: int| 0 <= i < failures@.len() ==> has_fmt_suggestion(
                #[trigger] failures@[i],
            ),
        decreases n - start,
    {
        if failures.len() >= 20 {
            break;
        }
        let end = match crate::text::find_byte(bytes, start, 10) {
            Some(e) => e,
            None => n,
        };
        let line_vec = crate::text::sub_bytes(bytes, start, end);
        let line = line_vec.as_slice();
        if crate::text::starts_with(line, "Diff in ".as_bytes()) {
            let path_start: usize = 8;
            let path_end: usize = match crate::text::find_sub(line, " at line ".as_bytes(), 0) {
                Some(p) => if p >= path_start {
                    p
                } else {
                    path_start
                },
                None => line_vec.len(),
            };
            let mut pe = path_end;
            if pe > path_start && line[pe - 1] == 58 {
                pe -= 1;
            }
            if pe > path_start {
                let path_bytes = crate::text::sub_bytes(line, path_start, pe);
                let path = string_of_bytes(path_bytes.as_slice());
                let mut message = String::from_str("File needs formatting: ");
                message.append(path.as_str());
                let failure = GateFailureDetail::new(FailureCategory::Format, message).with_file(
                    path,
                ).with_suggestion(String::from_str("Run cargo fmt to fix"));
                failures.push(failure);
            }
        }
        start = if end < n {
            end + 1
        } else {
            n
        };
    }
    if failures.len() == 0 && stderr.as_bytes().len() > 0 {
        let failure = GateFailureDetail::new(
            FailureCategory::Format,
            String::from_str(stderr),
        ).with_suggestion(String::from_str("Run cargo fmt to fix"));
        failures.push(failure);
    }
    failures
}

/// A numbered summary of format failures and the command that fixes them.
pub fn format_format_summary(failures: &Vec<GateFailureDetail>) -> (r: String)
{
    if failures.len() == 0 {
        return String::from_str("Formatting check failed (no additional details)");
    }
    let mut summary = String::new();
    push_dec(&mut summary, failures.len() as u64);
    summary.append(" file(s) need formatting:\n");
    let mut i: usize = 0;
    while i < failures.len() && i < 20
        invariant
            i <= failures@.len(),
        decreases failures@.len() - i,
    {
        let f = &failures[i];
        push_list_index(&mut summary, (i as u64) + 1);
        match &f.file {
            Some(file) => {
                summary.append(file.as_str());
            },
            None => {
                summary.append(f.message.as_str());
            },
        }
        summary.append("\n");
        i += 1;
    }
    if failures.len() > 20 {
        summary.append("... and ");
        push_dec(&mut summary, (failures.len() - 20) as u64);
        summary.append(" more files\n");
    }
    summary.append("\nRun `cargo fmt` to fix formatting issues.");
    summary
}

} // verus!
