//! Stable evidence labels for executor error categories.

use vstd::prelude::*;

verus! {

/// The classified category of a story executor error.
#[derive(Clone, Copy, Debug, PartialEq, Eq, Structural)]
pub enum ErrorCategory {
    /// A passing condition that may clear on retry.
    Transient,
    /// An account or usage limit was hit.
    UsageLimit,
    /// An unrecoverable error.
    Fatal,
    /// An operation timed out.
    Timeout,
}

/// The stable evidence label of an error category.
pub fn error_category_label(category: &ErrorCategory) -> (r: &'static str)
    ensures
        *category == ErrorCategory::Transient ==> r@ == "transient"@,
        *category == ErrorCategory::UsageLimit ==> r@ == "usage_limit"@,
        *category == ErrorCategory::Fatal ==> r@ == "fatal"@,
        *category == ErrorCategory::Timeout ==> r@ == "timeout"@,
{
    match category {
        ErrorCategory::Transient => "transient",
        ErrorCategory::UsageLimit => "usage_limit",
        ErrorCategory::Fatal => "fatal",
        ErrorCategory::Timeout => "timeout",
    }
}

} // verus!
