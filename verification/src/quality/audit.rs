//! Analysis of security audit output: structured JSON advisories first,
//! advisory-id text scanning as a fallback.

use vstd::prelude::*;

use crate::json::{json_of, parse_json, spec_as_u64, spec_get, JsonValue};
use crate::quality::detail::{push_list_index, FailureCategory, GateFailureDetail, GateResult};
use crate::text::{push_dec, string_of_bytes};

verus! {

/// The most audit failures ever reported for one run.
pub const MAX_AUDIT_FAILURES: usize = 20;

/// Whether an advisory id of the form `RUSTSEC-dddd-dddd` stands at `i`:
/// the literal prefix, four digits, a dash, and four digits.
pub open spec fn spec_rustsec_at(s: Seq<u8>, i: int) -> bool {
    &&& 0 <= i && i + 17 <= s.len()
    &&& crate::text::matches_at(s, vstd::utf8::encode_utf8("RUSTSEC-"@), i)
    &&& (forall|k: int| i + 8 <= k < i + 12 ==> 48 <= #[trigger] s[k] <= 57)
    &&& s[i + 12] == 45
    &&& (forall|k: int| i + 13 <= k < i + 17 ==> 48 <= #[trigger] s[k] <= 57)
}

/// Find the first advisory id of the form `RUSTSEC-dddd-dddd` at or after
/// `from`, returning its start offset.
pub fn find_rustsec_id(s: &[u8], from: usize) -> (r: Option<usize>)
    ensures
        r matches Some(i) ==> from <= i && spec_rustsec_at(s@, i as int),
{
    let mut at: usize = from;
    loop
        invariant
            from <= at,
        decreases s@.len() - at,
    {
        let hit = match crate::text::find_sub(s, "RUSTSEC-".as_bytes(), at) {
            Some(h) => h,
            None => {
                return None;
            },
        };
        if s.len() >= 17 && hit <= s.len() - 17 {
            let n = s.len();
            let mut ok = s[hit + 12] == 45;
            let mut k: usize = 0;
            while k < 4
                invariant
                    k <= 4,
                    n == s@.len(),
                    hit + 17 <= n,
                    ok ==> s@[hit + 12] == 45,
                    ok ==> forall|j: int| hit + 8 <= j < hit + 8 + k ==> 48 <= #[trigger] s@[j]
                        <= 57,
                    ok ==> forall|j: int| hit + 13 <= j < hit + 13 + k ==> 48 <= #[trigger] s@[j]
                        <= 57,
                decreases 4 - k,
            {
                if !(s[hit + 8 + k] >= 48 && s[hit + 8 + k] <= 57) {
                    ok = false;
                }
                if !(s[hit + 13 + k] >= 48 && s[hit + 13 + k] <= 57) {
                    ok = false;
                }
                k += 1;
            }
            if ok {
                return Some(hit);
            }
        } else {
            return None;
        }
        if hit + 1 <= s.len() {
            at = hit + 1;
        } else {
            return None;
        }
    }
}

/// The advisory URL for an advisory id.
pub fn advisory_url(id: &str) -> (r: String)
    ensures
        r@ == "https://rustsec.org/advisories/"@ + id@ + ".html"@,
{
    let mut url = String::from_str("https://rustsec.org/advisories/");
    url.append(id);
    url.append(".html");
    url
}

/// The update suggestion for a vulnerable crate.
fn update_suggestion(crate_name: &str) -> (r: String)
    ensures
        r@ == "Update "@ + crate_name@ + " to a patched version or find an alternative crate"@,
{
    let mut s = String::from_str("Update ");
    s.append(crate_name);
    s.append(" to a patched version or find an alternative crate");
    s
}

/// The string field `key` of `v`, when it is one.
pub open spec fn spec_field_str(v: JsonValue, key: Seq<char>) -> Option<Seq<char>> {
    match spec_get(v, key) {
        Some(JsonValue::Str(s)) => Some(s@),
        _ => None,
    }
}

/// A string read under `outer.inner` of an advisory entry, with its
/// fallback.
pub open spec fn spec_vuln_field(
    v: JsonValue,
    outer: Seq<char>,
    inner: Seq<char>,
    fallback: Seq<char>,
) -> Seq<char> {
    match spec_get(v, outer) {
        Some(section) => match spec_field_str(section, inner) {
            Some(s) => s,
            None => fallback,
        },
        None => fallback,
    }
}

/// Whether `d` is the failure detail projected from advisory `v`: id,
/// title, severity, crate name and version carried into the message; the
/// id as error code; the advisory URL as documentation; the update hint
/// as suggestion.
pub open spec fn spec_detail_of_vuln(v: JsonValue, d: GateFailureDetail) -> bool {
    let id = spec_vuln_field(v, "advisory"@, "id"@, "Unknown"@);
    let title = spec_vuln_field(v, "advisory"@, "title"@, "Unknown vulnerability"@);
    let severity = spec_vuln_field(v, "advisory"@, "severity"@, "unknown"@);
    let crate_name = spec_vuln_field(v, "package"@, "name"@, "unknown"@);
    let version = spec_vuln_field(v, "package"@, "version"@, "unknown"@);
    &&& d.category == FailureCategory::Security
    &&& d.error_code matches Some(c) && c@ == id
    &&& d.doc_url matches Some(u) && u@ == "https://rustsec.org/advisories/"@ + id + ".html"@
    &&& d.message@ == id + ": "@ + title + " (crate: "@ + crate_name + " v"@ + version
        + ", severity: "@ + severity + ")"@
    &&& d.suggestion matches Some(s) && s@ == "Update "@ + crate_name
        + " to a patched version or find an alternative crate"@
}

/// One advisory from structured audit output, projected to a failure
/// detail.
pub fn audit_detail_of_vuln(v: &JsonValue) -> (r: GateFailureDetail)
    ensures
        spec_detail_of_vuln(*v, r),
{
    let advisory = v.get("advisory");
    let package = v.get("package");
    let id = match advisory {
        Some(a) => match a.get("id") {
            Some(x) => match x.as_str() {
                Some(s) => String::from_str(s),
                None => String::from_str("Unknown"),
            },
            None => String::from_str("Unknown"),
        },
        None => String::from_str("Unknown"),
    };
    let title = match advisory {
        Some(a) => match a.get("title") {
            Some(x) => match x.as_str() {
                Some(s) => String::from_str(s),
                None => String::from_str("Unknown vulnerability"),
            },
            None => String::from_str("Unknown vulnerability"),
        },
        None => String::from_str("Unknown vulnerability"),
    };
    let severity = match advisory {
        Some(a) => match a.get("severity") {
            Some(x) => match x.as_str() {
                Some(s) => String::from_str(s),
                None => String::from_str("unknown"),
            },
            None => String::from_str("unknown"),
        },
        None => String::from_str("unknown"),
    };
    let crate_name = match package {
        Some(p) => match p.get("name") {
            Some(x) => match x.as_str() {
                Some(s) => String::from_str(s),
                None => String::from_str("unknown"),
            },
            None => String::from_str("unknown"),
        },
        None => String::from_str("unknown"),
    };
    let version = match package {
        Some(p) => match p.get("version") {
            Some(x) => match x.as_str() {
                Some(s) => String::from_str(s),
                None => String::from_str("unknown"),
            },
            None => String::from_str("unknown"),
        },
        None => String::from_str("unknown"),
    };
    let mut message = String::new();
    message.append(id.as_str());
    message.append(": ");
    message.append(title.as_str());
    message.append(" (crate: ");
    message.append(crate_name.as_str());
    message.append(" v");
    message.append(version.as_str());
    message.append(", severity: ");
    message.append(severity.as_str());
    message.append(")");
    proof {
        assert(message@ =~= id@ + ": "@ + title@ + " (crate: "@ + crate_name@ + " v"@ + version@
            + ", severity: "@ + severity@ + ")"@);
    }
    GateFailureDetail::new(FailureCategory::Security, message).with_error_code(
        String::from_str(id.as_str()),
    ).with_doc_url(advisory_url(id.as_str())).with_suggestion(
        update_suggestion(crate_name.as_str()),
    )
}

/// The advisory list `vulnerabilities.list` of an audit document, when it
/// is an array.
pub open spec fn spec_audit_list(v: JsonValue) -> Option<Seq<JsonValue>> {
    match spec_get(v, "vulnerabilities"@) {
        Some(vulns) => match spec_get(vulns, "list"@) {
            Some(l) => match l {
                JsonValue::Array(a) => Some(a@),
                _ => None,
            },
            None => None,
        },
        None => None,
    }
}

/// Parse structured audit JSON into failure details: one per advisory of
/// `vulnerabilities.list` in order, truncated to twenty; no details when
/// the text is not JSON or lacks the list.
pub fn parse_audit_vulnerabilities_json(json_str: &str) -> (r: Vec<GateFailureDetail>)
    ensures
        r@.len() <= 20,
        forall|i: int| 0 <= i < r@.len() ==> (#[trigger] r@[i]).category
            == FailureCategory::Security,
        match json_of(json_str@) {
            Some(doc) => match spec_audit_list(doc) {
                Some(l) => r@.len() == (if l.len() <= 20 {
                    l.len() as int
                } else {
                    20int
                }) && forall|k: int| 0 <= k < r@.len() ==> spec_detail_of_vuln(
                    l[k],
                    #[trigger] r@[k],
                ),
                None => r@.len() == 0,
            },
            None => r@.len() == 0,
        },
{
    let mut failures: Vec<GateFailureDetail> = Vec::new();
    let parsed = match parse_json(json_str) {
        Some(v) => v,
        None => {
            return failures;
        },
    };
    let list = match parsed.get("vulnerabilities") {
        Some(vulns) => match vulns.get("list") {
            Some(l) => match l.as_array() {
                Some(a) => a,
                None => {
                    return failures;
                },
            },
            None => {
                return failures;
            },
        },
        None => {
            return failures;
        },
    };
    let mut i: usize = 0;
    while i < list.len() && i < MAX_AUDIT_FAILURES
        invariant
            i <= list@.len(),
            i <= MAX_AUDIT_FAILURES,
            failures@.len() == (if i <= 20 {
                i as int
            } else {
                20int
            }),
            forall|k: int| 0 <= k < failures@.len() ==> spec_detail_of_vuln(
                list@[k],
                #[trigger] failures@[k],
            ),
        decreases list@.len() - i,
    {
        let d = audit_detail_of_vuln(&list[i]);
        if failures.len() < MAX_AUDIT_FAILURES {
            failures.push(d);
        }
        i += 1;
    }
    proof {
        assert(forall|k: int| 0 <= k < failures@.len() ==> (#[trigger] failures@[k]).category
            == FailureCategory::Security);
    }
    failures
}

/// The `vulnerabilities.count` reading of an audit document; absent or
/// unreadable counts read as zero, as the lenient original does.
pub open spec fn spec_audit_count(v: JsonValue) -> int {
    match spec_get(v, "vulnerabilities"@) {
        Some(vulns) => match spec_get(vulns, "count"@) {
            Some(c) => match spec_as_u64(c) {
                Some(n) => n as int,
                None => 0,
            },
            None => 0,
        },
        None => 0,
    }
}

/// The count of vulnerabilities reported by structured audit output, when
/// the text is JSON at all: the audit passes exactly when the count is
/// zero.
pub fn parse_audit_json(json_str: &str) -> (r: Option<GateResult>)
    ensures
        r is Some <==> json_of(json_str@) is Some,
        match json_of(json_str@) {
            Some(v) => r matches Some(g) && g.gate_name@ == "security_audit"@ && g.passed == (
            spec_audit_count(v) == 0),
            None => r is None,
        },
{
    let parsed = match parse_json(json_str) {
        Some(v) => v,
        None => {
            return None;
        },
    };
    let count: u64 = match parsed.get("vulnerabilities") {
        Some(vulns) => match vulns.get("count") {
            Some(c) => match c.as_u64() {
                Some(n) => n,
                None => 0,
            },
            None => 0,
        },
        None => 0,
    };
    if count == 0 {
        return Some(
            GateResult::pass(
                String::from_str("security_audit"),
                String::from_str("No known vulnerabilities found"),
            ),
        );
    }
    let failures = parse_audit_vulnerabilities_json(json_str);
    let details = format_audit_summary(&failures);
    let mut message = String::from_str("Found ");
    push_dec(&mut message, count);
    if count == 1 {
        message.append(" known vulnerability");
    } else {
        message.append(" known vulnerabilities");
    }
    Some(
        GateResult::fail(
            String::from_str("security_audit"),
            message,
            Some(details),
            Some(failures),
        ),
    )
}

/// A failure detail from text-scanned advisory information.
pub fn create_audit_failure_from_text(
    id: &str,
    crate_name: Option<String>,
    version: Option<String>,
    title: Option<String>,
) -> (r: GateFailureDetail)
    ensures
        r.category == FailureCategory::Security,
        r.error_code matches Some(c) && c@ == id@,
        r.doc_url matches Some(u) && u@ == "https://rustsec.org/advisories/"@ + id@ + ".html"@,
{
    let crate_name = match crate_name {
        Some(c) => c,
        None => String::from_str("unknown"),
    };
    let version = match version {
        Some(v) => v,
        None => String::from_str("unknown"),
    };
    let title = match title {
        Some(t) => t,
        None => String::from_str("Security vulnerability"),
    };
    let mut message = String::new();
    message.append(id);
    message.append(": ");
    message.append(title.as_str());
    message.append(" (crate: ");
    message.append(crate_name.as_str());
    message.append(" v");
    message.append(version.as_str());
    message.append(")");
    GateFailureDetail::new(FailureCategory::Security, message).with_error_code(
        String::from_str(id),
    ).with_doc_url(advisory_url(id)).with_suggestion(update_suggestion(crate_name.as_str()))
}

/// Scan plain audit text for advisory ids with their `Crate:`, `Version:`
/// and `Title:` lines, truncated to twenty.
pub fn parse_audit_vulnerabilities_text(stdout: &str, stderr: &str) -> (r: Vec<GateFailureDetail>)
    ensures
        r@.len() <= 20,
        forall|i: int| 0 <= i < r@.len() ==> (#[trigger] r@[i]).category
            == FailureCategory::Security,
{
    let mut combined = String::from_str(stdout);
    combined.append("\n");
    combined.append(stderr);
    let bytes = combined.as_str().as_bytes();
    let n = bytes.len();
    let mut failures: Vec<GateFailureDetail> = Vec::new();
    let mut current_id: Option<String> = None;
    let mut current_crate: Option<String> = None;
    let mut current_version: Option<String> = None;
    let mut current_title: Option<String> = None;
    let mut start: usize = 0;
    while start < n
        invariant
            start <= n,
            n == bytes@.len(),
            failures@.len() <= 20,
            forall|i: int| 0 <= i < failures@.len() ==> (#[trigger] failures@[i]).category
                == FailureCategory::Security,
        decreases n - start,
    {
        let end = match crate::text::find_byte(bytes, start, 10) {
            Some(e) => e,
            None => n,
        };
        let (ta, tb) = crate::text::trim_range(bytes, start, end);
        let tvec = crate::text::sub_bytes(bytes, ta, tb);
        let t = tvec.as_slice();
        if let Some(hit) = find_rustsec_id(t, 0) {
            proof {
                assert(hit + 17 <= t@.len());
            }
            if let Some(id) = current_id.take() {
                if failures.len() < MAX_AUDIT_FAILURES {
                    let d = create_audit_failure_from_text(
                        id.as_str(),
                        current_crate.take(),
                        current_version.take(),
                        current_title.take(),
                    );
                    failures.push(d);
                }
            }
            let id_bytes = crate::text::sub_bytes(t, hit, hit + 17);
            current_id = Some(string_of_bytes(id_bytes.as_slice()));
        }
        let crate_pat = "Crate:".as_bytes();
        if crate::text::starts_with(t, crate_pat) {
            let (va, vb) = crate::text::trim_range(t, crate_pat.len(), tvec.len());
            let v = crate::text::sub_bytes(t, va, vb);
            current_crate = Some(string_of_bytes(v.as_slice()));
        }
        let version_pat = "Version:".as_bytes();
        if crate::text::starts_with(t, version_pat) {
            let (va, vb) = crate::text::trim_range(t, version_pat.len(), tvec.len());
            let v = crate::text::sub_bytes(t, va, vb);
            current_version = Some(string_of_bytes(v.as_slice()));
        }
        let title_pat = "Title:".as_bytes();
        if crate::text::starts_with(t, title_pat) {
            let (va, vb) = crate::text::trim_range(t, title_pat.len(), tvec.len());
            let v = crate::text::sub_bytes(t, va, vb);
            current_title = Some(string_of_bytes(v.as_slice()));
        }
        start = if end < n {
            end + 1
        } else {
            n
        };
    }
    if let Some(id) = current_id {
        if failures.len() < MAX_AUDIT_FAILURES {
            let d = create_audit_failure_from_text(
                id.as_str(),
                current_crate,
                current_version,
                current_title,
            );
            failures.push(d);
        }
    }
    failures
}

/// Extract structured audit failures: JSON advisories first, the text scan
/// as the fallback.
pub fn extract_audit_vulnerabilities(stdout: &str, stderr: &str) -> (r: Vec<GateFailureDetail>)
    ensures
        r@.len() <= 20,
        forall|i: int| 0 <= i < r@.len() ==> (#[trigger] r@[i]).category
            == FailureCategory::Security,
{
    let failures = parse_audit_vulnerabilities_json(stdout);
    if failures.len() > 0 {
        return failures;
    }
    parse_audit_vulnerabilities_text(stdout, stderr)
}

/// A numbered summary of audit failures with their advisory URLs.
pub fn format_audit_summary(failures: &Vec<GateFailureDetail>) -> (r: String)
{
    if failures.len() == 0 {
        return String::from_str("Security audit failed (no specific vulnerabilities extracted)");
    }
    let mut summary = String::new();
    push_dec(&mut summary, failures.len() as u64);
    if failures.len() == 1 {
        summary.append(" vulnerability found:\n\n");
    } else {
        summary.append(" vulnerabilities found:\n\n");
    }
    let mut i: usize = 0;
    while i < failures.len()
        invariant
            i <= failures@.len(),
        decreases failures@.len() - i,
    {
        let f = &failures[i];
        push_list_index(&mut summary, (i as u64) + 1);
        match &f.error_code {
            Some(code) => {
                summary.append(code.as_str());
            },
            None => {
                summary.append("Unknown");
            },
        }
        summary.append(" - ");
        summary.append(f.message.as_str());
        summary.append("\n");
        if let Some(url) = &f.doc_url {
            summary.append("   Advisory: ");
            summary.append(url.as_str());
            summary.append("\n");
        }
        i += 1;
    }
    summary.append("\nRun `cargo audit` for full details.");
    summary
}

} // verus!
