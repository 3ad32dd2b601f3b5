use ralph_core::quality::audit;
use ralph_core::quality::checker::{extract_format_errors, format_format_summary, CiConfig,
    GateToolRuns, Profile, QualityGateChecker, SecurityConfig, TestingConfig, ToolRun};
use ralph_core::quality::detail::{FailureCategory, GateDuration, GateFailureDetail,
    GateProgressState, GateProgressUpdate, GateResult};
use ralph_core::quality::lint;
use ralph_core::quality::testparse;

fn create_test_profile(coverage: u8, unit_tests: bool, lint: bool, format: bool, audit: bool) -> Profile {
    Profile {
        description: String::from("Test profile"),
        testing: TestingConfig {
            coverage_threshold: coverage,
            unit_tests,
            integration_tests: false,
        },
        ci: CiConfig {
            required: true,
            lint_check: lint,
            format_check: format,
        },
        security: SecurityConfig {
            cargo_audit: audit,
            cargo_deny: false,
            sast: false,
        },
    }
}

#[test]
fn test_gate_result_pass() {
    let result = GateResult::pass(String::from("test_gate"), String::from("Test passed"));
    assert!(result.passed);
    assert_eq!(result.gate_name, "test_gate");
    assert_eq!(result.message, "Test passed");
    assert!(result.details.is_none());
}

#[test]
fn test_gate_result_fail() {
    let result = GateResult::fail(
        String::from("test_gate"),
        String::from("Test failed"),
        Some(String::from("Error details")),
        None,
    );
    assert!(!result.passed);
    assert_eq!(result.gate_name, "test_gate");
    assert_eq!(result.message, "Test failed");
    assert_eq!(result.details, Some(String::from("Error details")));
    assert!(result.failures.is_empty());
}

#[test]
fn test_gate_result_skipped() {
    let result = GateResult::skipped(String::from("test_gate"), String::from("Not enabled"));
    assert!(result.passed);
    assert_eq!(result.gate_name, "test_gate");
    assert!(result.message.contains("Skipped"));
}

#[test]
fn test_checker_run_all_minimal() {
    let profile = create_test_profile(0, false, false, false, false);
    let checker = QualityGateChecker::new(profile, String::from("/tmp/test"));
    let results = checker.run_all(&GateToolRuns::none());

    assert_eq!(results.len(), 5);
    assert!(QualityGateChecker::all_passed(&results));
}

#[test]
fn test_checker_run_all_comprehensive() {
    let profile = create_test_profile(90, true, true, true, true);
    let checker = QualityGateChecker::new(profile, String::from("/tmp/test"));
    let results = checker.run_all(&GateToolRuns::none());

    assert_eq!(results.len(), 5);
}

#[test]
fn test_all_passed_true() {
    let results = vec![
        GateResult::pass(String::from("gate1"), String::from("Passed")),
        GateResult::pass(String::from("gate2"), String::from("Passed")),
    ];
    assert!(QualityGateChecker::all_passed(&results));
}

#[test]
fn test_all_passed_false() {
    let results = vec![
        GateResult::pass(String::from("gate1"), String::from("Passed")),
        GateResult::fail(String::from("gate2"), String::from("Failed"), None, None),
    ];
    assert!(!QualityGateChecker::all_passed(&results));
}

#[test]
fn test_summary_all_passed() {
    let results = vec![
        GateResult::pass(String::from("gate1"), String::from("Passed")),
        GateResult::pass(String::from("gate2"), String::from("Passed")),
    ];
    let summary = QualityGateChecker::summary(&results);
    assert_eq!(summary, "All 2 gates passed");
}

#[test]
fn test_summary_some_failed() {
    let results = vec![
        GateResult::pass(String::from("gate1"), String::from("Passed")),
        GateResult::fail(String::from("gate2"), String::from("Failed"), None, None),
        GateResult::fail(String::from("gate3"), String::from("Failed"), None, None),
    ];
    let summary = QualityGateChecker::summary(&results);
    assert!(summary.contains("1/3 gates passed"));
    assert!(summary.contains("gate2"));
    assert!(summary.contains("gate3"));
}

#[test]
fn test_check_coverage_zero_threshold_skipped() {
    let profile = create_test_profile(0, false, false, false, false);
    let checker = QualityGateChecker::new(profile, String::from("/tmp/test"));
    let result = checker.check_coverage(&ToolRun::unavailable());

    assert!(result.passed);
    assert_eq!(result.gate_name, "coverage");
    assert!(result.message.contains("Skipped"));
    assert!(result.message.contains("threshold is 0"));
}

#[test]
fn test_check_coverage_with_threshold() {
    let profile = create_test_profile(70, false, false, false, false);
    let checker = QualityGateChecker::new(profile, String::from("/tmp/test"));
    let result = checker.check_coverage(&ToolRun::unavailable());

    assert_eq!(result.gate_name, "coverage");
    if !result.passed {
        assert!(
            result.message.contains("No coverage tool")
                || result.message.contains("failed")
                || result.message.contains("below threshold"),
            "Unexpected failure message: {}",
            result.message
        );
    }
}

#[test]
fn test_coverage_evaluated_from_tool_output() {
    let profile = create_test_profile(70, false, false, false, false);
    let checker = QualityGateChecker::new(profile, String::from("/tmp/test"));
    let run = ToolRun::ran(true, String::from("TOTAL 100 50 80.00%"), String::new());
    let result = checker.check_coverage(&run);
    assert!(result.passed);
    assert!(result.message.contains("80.00"));
    assert!(result.message.contains("meets threshold"));

    let low = ToolRun::ran(true, String::from("55.25% coverage"), String::new());
    let result = checker.check_coverage(&low);
    assert!(!result.passed);
    assert!(result.message.contains("55.25"));
    assert!(result.message.contains("below threshold"));
}

#[test]
fn test_extract_clippy_errors_with_json() {
    let stdout = r#"{"reason":"compiler-message","package_id":"test 0.1.0","manifest_path":"/test/Cargo.toml","target":{"kind":["lib"],"crate_types":["lib"],"name":"test","src_path":"/test/src/lib.rs","edition":"2021","doc":true,"doctest":true,"test":true},"message":{"rendered":"warning: unused variable: `x`\n --> src/lib.rs:10:9\n  |\n10 |     let x = 5;\n  |         ^ help: if this is intentional, prefix it with an underscore: `_x`\n  |\n  = note: `#[warn(unused_variables)]` on by default\n\n","$message_type":"diagnostic","children":[{"children":[],"code":null,"level":"help","message":"if this is intentional, prefix it with an underscore","rendered":null,"spans":[{"byte_end":150,"byte_start":149,"column_end":10,"column_start":9,"expansion":null,"file_name":"src/lib.rs","is_primary":true,"label":null,"line_end":10,"line_start":10,"suggested_replacement":"_x","suggestion_applicability":"MachineApplicable","text":[{"highlight_end":10,"highlight_start":9,"text":"    let x = 5;"}]}]}],"code":{"code":"unused_variables","explanation":null},"level":"warning","message":"unused variable: `x`","spans":[{"byte_end":150,"byte_start":149,"column_end":10,"column_start":9,"expansion":null,"file_name":"src/lib.rs","is_primary":true,"label":null,"line_end":10,"line_start":10,"suggested_replacement":null,"suggestion_applicability":null,"text":[{"highlight_end":10,"highlight_start":9,"text":"    let x = 5;"}]}]}}
{"reason":"compiler-message","package_id":"test 0.1.0","manifest_path":"/test/Cargo.toml","target":{"kind":["lib"],"crate_types":["lib"],"name":"test","src_path":"/test/src/lib.rs","edition":"2021","doc":true,"doctest":true,"test":true},"message":{"rendered":"error[E0382]: use of moved value: `s`\n --> src/lib.rs:15:20\n  |\n13 |     let s = String::from(\"hello\");\n  |         - move occurs because `s` has type `String`\n14 |     takes_ownership(s);\n  |                     - value moved here\n15 |     println!(\"{}\", s);\n  |                    ^ value used here after move\n\n","$message_type":"diagnostic","children":[],"code":{"code":"E0382","explanation":"https://doc.rust-lang.org/error-index.html#E0382"},"level":"error","message":"use of moved value: `s`","spans":[{"byte_end":280,"byte_start":279,"column_end":21,"column_start":20,"expansion":null,"file_name":"src/lib.rs","is_primary":true,"label":"value used here after move","line_end":15,"line_start":15,"suggested_replacement":null,"suggestion_applicability":null,"text":[{"highlight_end":21,"highlight_start":20,"text":"    println!(\"{}\", s);"}]}]}}"#;

    let result = lint::extract_clippy_errors(stdout, "");

    assert_eq!(result.len(), 2);

    assert_eq!(result[0].category, FailureCategory::Lint);
    assert_eq!(result[0].message, "unused variable: `x`");
    assert_eq!(result[0].file, Some(String::from("src/lib.rs")));
    assert_eq!(result[0].line, Some(10));
    assert_eq!(result[0].column, Some(9));
    assert_eq!(result[0].error_code, Some(String::from("unused_variables")));
    assert_eq!(result[0].suggestion, Some(String::from("_x")));

    assert_eq!(result[1].category, FailureCategory::Lint);
    assert_eq!(result[1].message, "use of moved value: `s`");
    assert_eq!(result[1].file, Some(String::from("src/lib.rs")));
    assert_eq!(result[1].line, Some(15));
    assert_eq!(result[1].error_code, Some(String::from("E0382")));
}

#[test]
fn test_extract_clippy_errors_text_fallback() {
    let stderr = r#"error: unused variable: `x`
  --> src/main.rs:10:5
   |
10 |     let x = 5;
   |         ^ help: if this is intentional, prefix it with an underscore: `_x`
   |
   = note: `#[deny(unused_variables)]` on by default

warning: function `foo` is never used
  --> src/main.rs:5:4
   |
5  | fn foo() {}
   |    ^^^
"#;
    let result = lint::extract_clippy_errors("", stderr);

    assert_eq!(result.len(), 2);

    assert_eq!(result[0].category, FailureCategory::Lint);
    assert!(result[0].message.contains("unused variable"));
    assert_eq!(result[0].file, Some(String::from("src/main.rs")));
    assert_eq!(result[0].line, Some(10));
    assert_eq!(result[0].column, Some(5));

    assert_eq!(result[1].category, FailureCategory::Lint);
    assert!(result[1].message.contains("function `foo` is never used"));
    assert_eq!(result[1].file, Some(String::from("src/main.rs")));
    assert_eq!(result[1].line, Some(5));
}

#[test]
fn test_extract_clippy_errors_empty() {
    let result = lint::extract_clippy_errors("", "");
    assert!(result.is_empty());
}

#[test]
fn test_extract_clippy_errors_limit_20() {
    let mut stdout = String::new();
    for i in 1..=25 {
        let json = format!(
            r#"{{"reason":"compiler-message","package_id":"test 0.1.0","manifest_path":"/test/Cargo.toml","target":{{"kind":["lib"],"crate_types":["lib"],"name":"test","src_path":"/test/src/lib.rs","edition":"2021","doc":true,"doctest":true,"test":true}},"message":{{"rendered":"warning: unused variable\n","$message_type":"diagnostic","children":[],"code":{{"code":"unused_variables","explanation":null}},"level":"warning","message":"unused variable {}","spans":[{{"byte_end":150,"byte_start":149,"column_end":10,"column_start":9,"expansion":null,"file_name":"src/lib.rs","is_primary":true,"label":null,"line_end":{},"line_start":{},"suggested_replacement":null,"suggestion_applicability":null,"text":[]}}]}}}}"#,
            i, i, i
        );
        stdout.push_str(&json);
        stdout.push('\n');
    }

    let result = lint::extract_clippy_errors(&stdout, "");

    assert_eq!(result.len(), 20);
}

#[test]
fn test_format_clippy_summary() {
    let failures = vec![
        GateFailureDetail::new(FailureCategory::Lint, String::from("unused variable"))
            .with_file(String::from("src/lib.rs"))
            .with_line(10),
        GateFailureDetail::new(FailureCategory::Lint, String::from("missing docs")),
    ];

    let summary = lint::format_clippy_summary(&failures);

    assert!(summary.contains("2 issue(s) found"));
    assert!(summary.contains("src/lib.rs:10"));
    assert!(summary.contains("unused variable"));
    assert!(summary.contains("missing docs"));
}

#[test]
fn test_format_clippy_summary_empty() {
    let failures: Vec<GateFailureDetail> = vec![];
    let summary = lint::format_clippy_summary(&failures);
    assert_eq!(summary, "No specific failures extracted");
}

#[test]
fn test_extract_format_errors_with_diffs() {
    let stdout = "Diff in /src/main.rs at line 1:\nDiff in /src/lib.rs at line 5:\n";
    let stderr = "";
    let failures = extract_format_errors(stdout, stderr);

    assert_eq!(failures.len(), 2);

    assert_eq!(failures[0].category, FailureCategory::Format);
    assert_eq!(failures[0].file, Some(String::from("/src/main.rs")));
    assert_eq!(failures[0].suggestion, Some(String::from("Run cargo fmt to fix")));

    assert_eq!(failures[1].category, FailureCategory::Format);
    assert_eq!(failures[1].file, Some(String::from("/src/lib.rs")));
    assert_eq!(failures[1].suggestion, Some(String::from("Run cargo fmt to fix")));

    let summary = format_format_summary(&failures);
    assert!(summary.contains("2 file(s) need formatting"));
    assert!(summary.contains("cargo fmt"));
}

#[test]
fn test_extract_format_errors_empty() {
    let stdout = "";
    let stderr = "";
    let failures = extract_format_errors(stdout, stderr);
    assert!(failures.is_empty());

    let summary = format_format_summary(&failures);
    assert!(summary.contains("Formatting check failed"));
}

#[test]
fn test_extract_format_errors_with_stderr() {
    let stdout = "";
    let stderr = "error: couldn't parse file";
    let failures = extract_format_errors(stdout, stderr);

    assert_eq!(failures.len(), 1);
    assert_eq!(failures[0].category, FailureCategory::Format);
    assert!(failures[0].message.contains("couldn't parse"));
    assert_eq!(failures[0].suggestion, Some(String::from("Run cargo fmt to fix")));
}

#[test]
fn test_extract_format_errors_sample_rustfmt_output() {
    let stdout = r#"Diff in src/main.rs at line 10:
Diff in src/lib.rs at line 25:
Diff in src/utils/helpers.rs at line 1:
"#;
    let stderr = "";
    let failures = extract_format_errors(stdout, stderr);

    assert_eq!(failures.len(), 3);

    for failure in &failures {
        assert_eq!(failure.category, FailureCategory::Format);
        assert!(failure.file.is_some());
        assert_eq!(failure.suggestion, Some(String::from("Run cargo fmt to fix")));
        assert!(failure.message.starts_with("File needs formatting:"));
    }

    assert_eq!(failures[0].file, Some(String::from("src/main.rs")));
    assert_eq!(failures[1].file, Some(String::from("src/lib.rs")));
    assert_eq!(failures[2].file, Some(String::from("src/utils/helpers.rs")));

    let summary = format_format_summary(&failures);
    assert!(summary.contains("3 file(s) need formatting"));
    assert!(summary.contains("src/main.rs"));
    assert!(summary.contains("src/lib.rs"));
    assert!(summary.contains("src/utils/helpers.rs"));
    assert!(summary.contains("cargo fmt"));
}

#[test]
fn test_format_format_summary() {
    let failures = vec![
        GateFailureDetail::new(
            FailureCategory::Format,
            String::from("File needs formatting: src/main.rs"),
        )
        .with_file(String::from("src/main.rs")),
        GateFailureDetail::new(
            FailureCategory::Format,
            String::from("File needs formatting: src/lib.rs"),
        )
        .with_file(String::from("src/lib.rs")),
    ];

    let summary = format_format_summary(&failures);

    assert!(summary.contains("2 file(s) need formatting"));
    assert!(summary.contains("1. src/main.rs"));
    assert!(summary.contains("2. src/lib.rs"));
    assert!(summary.contains("cargo fmt"));
}

#[test]
fn test_extract_audit_vulnerabilities_with_rustsec() {
    let stdout = r#"
Crate:   test-crate
Version: 1.0.0
Title:   Test vulnerability
RUSTSEC-2021-0001
        "#;
    let stderr = "";

    let result = audit::extract_audit_vulnerabilities(stdout, stderr);
    assert_eq!(result.len(), 1);
    assert_eq!(result[0].category, FailureCategory::Security);
    assert_eq!(result[0].error_code, Some(String::from("RUSTSEC-2021-0001")));
    assert!(result[0].message.contains("test-crate"));
    assert!(result[0].message.contains("1.0.0"));
    assert!(result[0].message.contains("Test vulnerability"));
    assert_eq!(
        result[0].doc_url,
        Some(String::from("https://rustsec.org/advisories/RUSTSEC-2021-0001.html"))
    );
}

#[test]
fn test_extract_audit_vulnerabilities_with_warnings() {
    let stdout = "";
    let stderr = r#"
warning: 1 vulnerability found!
warning: some other warning
error: critical issue
        "#;

    let result = audit::extract_audit_vulnerabilities(stdout, stderr);
    assert!(result.is_empty());
}

#[test]
fn test_extract_audit_vulnerabilities_empty() {
    let stdout = "";
    let stderr = "";

    let result = audit::extract_audit_vulnerabilities(stdout, stderr);
    assert!(result.is_empty());
}

#[test]
fn test_extract_audit_vulnerabilities_json() {
    let json = r#"{
        "vulnerabilities": {
            "count": 2,
            "list": [
                {
                    "advisory": {
                        "id": "RUSTSEC-2021-0001",
                        "title": "Test vulnerability 1",
                        "severity": "high"
                    },
                    "package": {
                        "name": "test-crate",
                        "version": "1.0.0"
                    }
                },
                {
                    "advisory": {
                        "id": "RUSTSEC-2021-0002",
                        "title": "Test vulnerability 2",
                        "severity": "medium"
                    },
                    "package": {
                        "name": "another-crate",
                        "version": "2.0.0"
                    }
                }
            ]
        }
    }"#;

    let result = audit::extract_audit_vulnerabilities(json, "");

    assert_eq!(result.len(), 2);

    assert_eq!(result[0].category, FailureCategory::Security);
    assert_eq!(result[0].error_code, Some(String::from("RUSTSEC-2021-0001")));
    assert!(result[0].message.contains("test-crate"));
    assert!(result[0].message.contains("1.0.0"));
    assert!(result[0].message.contains("high"));
    assert!(result[0].message.contains("Test vulnerability 1"));
    assert_eq!(
        result[0].doc_url,
        Some(String::from("https://rustsec.org/advisories/RUSTSEC-2021-0001.html"))
    );
    assert!(result[0].suggestion.is_some());
    assert!(result[0].suggestion.as_ref().unwrap().contains("test-crate"));

    assert_eq!(result[1].category, FailureCategory::Security);
    assert_eq!(result[1].error_code, Some(String::from("RUSTSEC-2021-0002")));
    assert!(result[1].message.contains("another-crate"));
    assert!(result[1].message.contains("2.0.0"));
    assert!(result[1].message.contains("medium"));
}

#[test]
fn test_extract_audit_vulnerabilities_limit_20() {
    let mut list = Vec::new();
    for i in 1..=25 {
        list.push(format!(
            r#"{{
                "advisory": {{
                    "id": "RUSTSEC-2021-{:04}",
                    "title": "Vulnerability {}",
                    "severity": "medium"
                }},
                "package": {{
                    "name": "crate-{}",
                    "version": "1.0.0"
                }}
            }}"#,
            i, i, i
        ));
    }
    let json = format!(
        r#"{{"vulnerabilities": {{"count": 25, "list": [{}]}}}}"#,
        list.join(",")
    );

    let result = audit::extract_audit_vulnerabilities(&json, "");

    assert_eq!(result.len(), 20);
}

#[test]
fn test_format_audit_summary() {
    let failures = vec![
        GateFailureDetail::new(
            FailureCategory::Security,
            String::from(
                "RUSTSEC-2023-0001: Memory safety issue (crate: unsafe-crate v3.0.0, severity: high)",
            ),
        )
        .with_error_code(String::from("RUSTSEC-2023-0001"))
        .with_doc_url(String::from("https://rustsec.org/advisories/RUSTSEC-2023-0001.html")),
        GateFailureDetail::new(
            FailureCategory::Security,
            String::from(
                "RUSTSEC-2023-0002: Another issue (crate: other-crate v1.0.0, severity: medium)",
            ),
        )
        .with_error_code(String::from("RUSTSEC-2023-0002"))
        .with_doc_url(String::from("https://rustsec.org/advisories/RUSTSEC-2023-0002.html")),
    ];

    let summary = audit::format_audit_summary(&failures);

    assert!(summary.contains("2 vulnerabilities found"));
    assert!(summary.contains("RUSTSEC-2023-0001"));
    assert!(summary.contains("RUSTSEC-2023-0002"));
    assert!(summary.contains("https://rustsec.org/advisories/RUSTSEC-2023-0001.html"));
    assert!(summary.contains("cargo audit"));
}

#[test]
fn test_format_audit_summary_single() {
    let failures = vec![
        GateFailureDetail::new(FailureCategory::Security, String::from("RUSTSEC-2023-0001: Issue"))
            .with_error_code(String::from("RUSTSEC-2023-0001")),
    ];

    let summary = audit::format_audit_summary(&failures);
    assert!(summary.contains("1 vulnerability found"));
}

#[test]
fn test_format_audit_summary_empty() {
    let failures: Vec<GateFailureDetail> = vec![];
    let summary = audit::format_audit_summary(&failures);
    assert!(summary.contains("no specific vulnerabilities extracted"));
}

#[test]
fn test_gate_progress_state_equality() {
    assert_eq!(GateProgressState::Running, GateProgressState::Running);
    assert_eq!(GateProgressState::Passed, GateProgressState::Passed);
    assert_eq!(GateProgressState::Failed, GateProgressState::Failed);
    assert_ne!(GateProgressState::Running, GateProgressState::Passed);
    assert_ne!(GateProgressState::Passed, GateProgressState::Failed);
}

#[test]
fn test_gate_progress_update_running() {
    let update = GateProgressUpdate::running(String::from("lint"));
    assert_eq!(update.gate_name, "lint");
    assert_eq!(update.state, GateProgressState::Running);
    assert!(update.duration.is_none());
    assert!(update.is_running());
    assert!(!update.is_passed());
    assert!(!update.is_failed());
    assert!(!update.is_completed());
}

#[test]
fn test_gate_progress_update_passed() {
    let duration = GateDuration::from_millis(1500);
    let update = GateProgressUpdate::passed(String::from("format"), duration);
    assert_eq!(update.gate_name, "format");
    assert_eq!(update.state, GateProgressState::Passed);
    assert_eq!(update.duration, Some(duration));
    assert!(!update.is_running());
    assert!(update.is_passed());
    assert!(!update.is_failed());
    assert!(update.is_completed());
}

#[test]
fn test_gate_progress_update_failed() {
    let duration = GateDuration::from_millis(2300);
    let update = GateProgressUpdate::failed(String::from("coverage"), duration);
    assert_eq!(update.gate_name, "coverage");
    assert_eq!(update.state, GateProgressState::Failed);
    assert_eq!(update.duration, Some(duration));
    assert!(!update.is_running());
    assert!(!update.is_passed());
    assert!(update.is_failed());
    assert!(update.is_completed());
}

#[test]
fn test_gate_progress_update_format_duration_none() {
    let update = GateProgressUpdate::running(String::from("test"));
    assert!(update.format_duration().is_none());
}

#[test]
fn test_gate_progress_update_format_duration_seconds() {
    let update = GateProgressUpdate::passed(String::from("test"), GateDuration::from_millis(1234));
    let formatted = update.format_duration().unwrap();
    assert!(formatted.contains("1.2"));
    assert!(formatted.ends_with('s'));
}

#[test]
fn test_gate_progress_update_format_duration_minutes() {
    let update = GateProgressUpdate::passed(String::from("test"), GateDuration::from_secs(125));
    let formatted = update.format_duration().unwrap();
    assert!(formatted.contains("2m"));
}

#[test]
fn test_run_all_gates_with_progress_emits_running_first() {
    let profile = create_test_profile(0, false, false, false, false);
    let checker = QualityGateChecker::new(profile, String::from("/tmp/test"));

    let (_results, updates) = checker.run_all_gates_with_progress(&GateToolRuns::none());

    assert_eq!(updates.len(), 10);

    assert!(updates[0].is_running());
    assert_eq!(updates[0].gate_name, "coverage");

    assert!(updates[1].is_completed());
    assert_eq!(updates[1].gate_name, "coverage");
}

#[test]
fn test_run_all_gates_with_progress_correct_gate_order() {
    let profile = create_test_profile(0, false, false, false, false);
    let checker = QualityGateChecker::new(profile, String::from("/tmp/test"));

    let (_results, updates) = checker.run_all_gates_with_progress(&GateToolRuns::none());
    let gate_names: Vec<String> = updates
        .iter()
        .filter(|u| u.is_running())
        .map(|u| u.gate_name.clone())
        .collect();

    assert_eq!(
        gate_names,
        vec!["coverage", "tests", "lint", "format", "security_audit"]
    );
}

#[test]
fn test_run_all_gates_with_progress_includes_duration() {
    let profile = create_test_profile(0, false, false, false, false);
    let checker = QualityGateChecker::new(profile, String::from("/tmp/test"));

    let (_results, updates) = checker.run_all_gates_with_progress(&GateToolRuns::none());

    for update in updates.iter().filter(|u| u.is_completed()) {
        assert!(
            update.duration.is_some(),
            "Gate {} should have duration",
            update.gate_name
        );
        assert!(
            update.duration.unwrap().as_nanos() > 0,
            "Duration should be positive"
        );
    }
}

#[test]
fn test_run_all_gates_with_progress_returns_results() {
    let profile = create_test_profile(0, false, false, false, false);
    let checker = QualityGateChecker::new(profile, String::from("/tmp/test"));

    let (results, updates) = checker.run_all_gates_with_progress(&GateToolRuns::none());

    assert_eq!(results.len(), 5);
    assert_eq!(results[0].gate_name, "coverage");
    assert_eq!(results[1].gate_name, "tests");
    assert_eq!(results[2].gate_name, "lint");
    assert_eq!(results[3].gate_name, "format");
    assert_eq!(results[4].gate_name, "security_audit");

    assert_eq!(updates.len(), 10);
}

#[test]
fn test_run_all_gates_with_progress_running_before_complete() {
    let profile = create_test_profile(0, false, false, false, false);
    let checker = QualityGateChecker::new(profile, String::from("/tmp/test"));

    let (_results, updates) = checker.run_all_gates_with_progress(&GateToolRuns::none());
    let update_sequence: Vec<(String, GateProgressState)> = updates
        .iter()
        .map(|u| (u.gate_name.clone(), u.state))
        .collect();

    let gate_order = ["coverage", "lint", "format", "security_audit"];
    for gate in gate_order {
        let running_pos = update_sequence
            .iter()
            .position(|(name, state)| name == gate && *state == GateProgressState::Running);
        let complete_pos = update_sequence.iter().position(|(name, state)| {
            name == gate
                && matches!(*state, GateProgressState::Passed | GateProgressState::Failed)
        });

        assert!(running_pos.is_some(), "Gate {} should have Running update", gate);
        assert!(complete_pos.is_some(), "Gate {} should have completed update", gate);
        assert!(
            running_pos.unwrap() < complete_pos.unwrap(),
            "Gate {} Running should come before completed",
            gate
        );
    }
}

#[test]
fn test_run_all_gates_with_progress_matches_run_all_results() {
    let profile = create_test_profile(0, false, false, false, false);
    let checker = QualityGateChecker::new(profile, String::from("/tmp/test"));

    let run_all_results = checker.run_all(&GateToolRuns::none());
    let (progress_results, _updates) = checker.run_all_gates_with_progress(&GateToolRuns::none());

    assert_eq!(run_all_results.len(), progress_results.len());
    for (ra, pr) in run_all_results.iter().zip(progress_results.iter()) {
        assert_eq!(ra.gate_name, pr.gate_name);
        assert_eq!(ra.passed, pr.passed);
    }
}

#[test]
fn test_run_all_gates_with_progress_state_matches_result() {
    let profile = create_test_profile(0, false, false, false, false);
    let checker = QualityGateChecker::new(profile, String::from("/tmp/test"));

    let (results, updates) = checker.run_all_gates_with_progress(&GateToolRuns::none());

    for result in results {
        let state = updates
            .iter()
            .filter(|u| u.is_completed() && u.gate_name == result.gate_name)
            .map(|u| u.state)
            .next_back()
            .unwrap();
        if result.passed {
            assert_eq!(state, GateProgressState::Passed);
        } else {
            assert_eq!(state, GateProgressState::Failed);
        }
    }
}

#[test]
fn test_gate_failure_detail_new() {
    let detail = GateFailureDetail::new(FailureCategory::Lint, String::from("Unused variable"));
    assert_eq!(detail.category, FailureCategory::Lint);
    assert_eq!(detail.message, "Unused variable");
    assert!(detail.file.is_none());
    assert!(detail.line.is_none());
    assert!(detail.column.is_none());
    assert!(detail.error_code.is_none());
    assert!(detail.suggestion.is_none());
    assert!(detail.doc_url.is_none());
}

#[test]
fn test_gate_failure_detail_builder_methods() {
    let detail = GateFailureDetail::new(FailureCategory::TypeCheck, String::from("Type mismatch"))
        .with_file(String::from("src/main.rs"))
        .with_line(42)
        .with_column(10)
        .with_error_code(String::from("E0308"))
        .with_suggestion(String::from("Expected i32, found String"))
        .with_doc_url(String::from("https://doc.rust-lang.org/error-index.html#E0308"));

    assert_eq!(detail.file, Some(String::from("src/main.rs")));
    assert_eq!(detail.line, Some(42));
    assert_eq!(detail.column, Some(10));
    assert_eq!(detail.error_code, Some(String::from("E0308")));
    assert_eq!(detail.category, FailureCategory::TypeCheck);
    assert_eq!(detail.message, "Type mismatch");
    assert_eq!(detail.suggestion, Some(String::from("Expected i32, found String")));
    assert_eq!(
        detail.doc_url,
        Some(String::from("https://doc.rust-lang.org/error-index.html#E0308"))
    );
}

#[test]
fn test_gate_failure_detail_with_location() {
    let detail = GateFailureDetail::new(FailureCategory::Lint, String::from("Test"))
        .with_location(String::from("src/lib.rs"), 100, Some(5));

    assert_eq!(detail.file, Some(String::from("src/lib.rs")));
    assert_eq!(detail.line, Some(100));
    assert_eq!(detail.column, Some(5));

    let detail2 = GateFailureDetail::new(FailureCategory::Lint, String::from("Test"))
        .with_location(String::from("src/lib.rs"), 200, None);

    assert_eq!(detail2.file, Some(String::from("src/lib.rs")));
    assert_eq!(detail2.line, Some(200));
    assert!(detail2.column.is_none());
}

#[test]
fn test_gate_result_fail_with_failures() {
    let failures = vec![
        GateFailureDetail::new(FailureCategory::Test, String::from("Test failed: one")),
        GateFailureDetail::new(FailureCategory::Test, String::from("Test failed: two")),
    ];
    let result = GateResult::fail(
        String::from("tests"),
        String::from("2 tests failed"),
        Some(String::from("details")),
        Some(failures),
    );
    assert!(!result.passed);
    assert_eq!(result.failures.len(), 2);
    assert_eq!(result.failures[0].message, "Test failed: one");
    assert_eq!(result.failures[1].message, "Test failed: two");
}

#[test]
fn test_gate_result_fail_without_failures() {
    let result = GateResult::fail(String::from("tests"), String::from("failed"), None, None);
    assert!(result.failures.is_empty());
}

#[test]
fn test_gate_result_pass_has_empty_failures() {
    let result = GateResult::pass(String::from("tests"), String::from("All tests passed"));
    assert!(result.failures.is_empty());
}

#[test]
fn test_gate_result_skipped_has_empty_failures() {
    let result = GateResult::skipped(String::from("tests"), String::from("not enabled"));
    assert!(result.failures.is_empty());
}

#[test]
fn test_extract_test_failures_text_output() {
    let stdout = r#"
running 3 tests
test tests::test_one ... ok
test tests::test_two ... FAILED
test tests::test_three ... ok

failures:

---- tests::test_two stdout ----
thread 'tests::test_two' panicked at src/lib.rs:42:5:
assertion `left == right` failed
  left: 4
 right: 5

failures:
    tests::test_two

test result: FAILED. 2 passed; 1 failed; 0 ignored
"#;
    let failures = testparse::extract_test_failures(stdout, "");

    assert_eq!(failures.len(), 1);
    assert_eq!(failures[0].category, FailureCategory::Test);
    assert_eq!(failures[0].error_code, Some(String::from("tests::test_two")));
    assert!(failures[0].message.contains("tests::test_two"));
    assert_eq!(failures[0].file, Some(String::from("src/lib.rs")));
    assert_eq!(failures[0].line, Some(42));
    let suggestion = failures[0].suggestion.as_ref().unwrap();
    assert!(suggestion.contains("Expected: 5"));
    assert!(suggestion.contains("Got: 4"));
}

#[test]
fn test_extract_test_failures_json_output() {
    let stdout = r#"{ "type": "suite", "event": "started", "test_count": 2 }
{ "type": "test", "event": "started", "name": "tests::works" }
{ "type": "test", "event": "ok", "name": "tests::works" }
{ "type": "test", "event": "started", "name": "tests::broken" }
{ "type": "test", "name": "tests::broken", "event": "failed", "stdout": "thread 'tests::broken' panicked at src/lib.rs:7:5:\nassertion failed: false\n" }
{ "type": "suite", "event": "failed", "passed": 1, "failed": 1 }
"#;
    let failures = testparse::extract_test_failures(stdout, "");

    assert_eq!(failures.len(), 1);
    assert_eq!(failures[0].category, FailureCategory::Test);
    assert_eq!(failures[0].error_code, Some(String::from("tests::broken")));
    assert_eq!(failures[0].file, Some(String::from("src/lib.rs")));
    assert_eq!(failures[0].line, Some(7));
}

#[test]
fn test_extract_test_failures_empty() {
    let failures = testparse::extract_test_failures("", "");
    assert!(failures.is_empty());
}

#[test]
fn test_extract_test_failures_all_passing() {
    let stdout = r#"
running 2 tests
test tests::one ... ok
test tests::two ... ok

test result: ok. 2 passed; 0 failed; 0 ignored
"#;
    let failures = testparse::extract_test_failures(stdout, "");
    assert!(failures.is_empty());
}

#[test]
fn test_extract_test_failures_limit_20() {
    let mut stdout = String::from("running 25 tests\n");
    for i in 1..=25 {
        stdout.push_str(&format!("test tests::case_{} ... FAILED\n", i));
    }
    let failures = testparse::extract_test_failures(&stdout, "");
    assert_eq!(failures.len(), 20);
}

#[test]
fn test_extract_assertion_info_left_right() {
    let stdout = r#"
thread 'tests::t' panicked at src/lib.rs:10:5:
assertion `left == right` failed
  left: 1
 right: 2
"#;
    let info = testparse::extract_assertion_info(stdout).unwrap();
    assert!(info.contains("Expected: 2"));
    assert!(info.contains("Got: 1"));
}

#[test]
fn test_extract_assertion_info_expected_got() {
    let stdout = "something expected 3 but got 4 here\n";
    let info = testparse::extract_assertion_info(stdout).unwrap();
    assert!(info.contains("expected 3 but got 4"));
}

#[test]
fn test_extract_assertion_info_panic_message() {
    let stdout = "thread 'main' panicked at 'custom error message', src/lib.rs:10:5\n";
    let info = testparse::extract_assertion_info(stdout).unwrap();
    assert_eq!(info, "custom error message");
}

#[test]
fn test_extract_assertion_info_none() {
    let stdout = "nothing interesting here\n";
    assert!(testparse::extract_assertion_info(stdout).is_none());
}

#[test]
fn test_extract_test_location() {
    let stdout = "thread 'tests::t' panicked at src/lib.rs:42:5:\n";
    let (file, line) = testparse::extract_test_location(stdout).unwrap();
    assert_eq!(file, "src/lib.rs");
    assert_eq!(line, 42);
}

#[test]
fn test_extract_test_location_arrow() {
    let stdout = "  --> src/main.rs:17:9\n";
    let (file, line) = testparse::extract_test_location(stdout).unwrap();
    assert_eq!(file, "src/main.rs");
    assert_eq!(line, 17);
}

#[test]
fn test_extract_test_location_none() {
    let stdout = "no location in this text\n";
    assert!(testparse::extract_test_location(stdout).is_none());
}

#[test]
fn test_format_test_summary() {
    let failures = vec![
        GateFailureDetail::new(FailureCategory::Test, String::from("Test failed: tests::alpha"))
            .with_error_code(String::from("tests::alpha"))
            .with_file(String::from("src/a.rs"))
            .with_line(10)
            .with_suggestion(String::from("Expected: 1, Got: 2")),
        GateFailureDetail::new(FailureCategory::Test, String::from("Test failed: tests::beta"))
            .with_error_code(String::from("tests::beta")),
    ];

    let summary = testparse::format_test_summary(&failures);
    assert!(summary.contains("2 test(s) failed"));
    assert!(summary.contains("tests::alpha"));
    assert!(summary.contains("src/a.rs:10"));
    assert!(summary.contains("Expected: 1, Got: 2"));
    assert!(summary.contains("tests::beta"));
}

#[test]
fn test_format_test_summary_empty() {
    let failures: Vec<GateFailureDetail> = vec![];
    let summary = testparse::format_test_summary(&failures);
    assert_eq!(summary, "No specific failures extracted");
}

#[test]
fn test_parse_test_text_inline_failures() {
    let stdout = r#"
running 2 tests
test tests::first ... FAILED
test tests::second ... FAILED

test result: FAILED. 0 passed; 2 failed; 0 ignored
"#;
    let failures = testparse::parse_test_text(stdout, "");
    assert_eq!(failures.len(), 2);
    assert_eq!(failures[0].error_code, Some(String::from("tests::first")));
    assert_eq!(failures[1].error_code, Some(String::from("tests::second")));
}

#[test]
fn test_build_test_failure_detail() {
    let stdout = "thread 'tests::t' panicked at src/lib.rs:42:5:\nassertion failed: x > 0\n";
    let detail = testparse::build_test_failure_detail("tests::t", stdout);
    assert_eq!(detail.category, FailureCategory::Test);
    assert_eq!(detail.message, "Test failed: tests::t");
    assert_eq!(detail.error_code, Some(String::from("tests::t")));
    assert_eq!(detail.file, Some(String::from("src/lib.rs")));
    assert_eq!(detail.line, Some(42));
    assert!(detail.suggestion.as_ref().unwrap().contains("assertion failed"));
}
