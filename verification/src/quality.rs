//! Quality gates: structured results, failure details, progress reporting,
//! and the analysis of coverage, lint, test, format and audit tool output.

pub mod audit;
pub mod checker;
pub mod coverage;
pub mod detail;
pub mod lint;
pub mod testparse;
