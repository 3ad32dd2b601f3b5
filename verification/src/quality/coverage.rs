//! Analysis of coverage tool output: percentages read out of summary text,
//! in hundredths of a percent.

use vstd::prelude::*;

use crate::text::{push_dec, push_digit};

verus! {

/// Parse the decimal number ending at `stop` (exclusive) in `s`, with an
/// optional fraction, into hundredths; the number's digits directly precede
/// `stop`.
fn parse_decimal_before(s: &[u8], stop: usize) -> (r: Option<u64>)
    requires
        stop <= s@.len(),
{
    let mut int_end: usize = stop;
    let mut int_start: usize = stop;
    let mut frac: u64 = 0;
    // Walk back over the digits directly before `stop`.
    let mut k: usize = stop;
    while k > 0 && s[k - 1] >= 48 && s[k - 1] <= 57
        invariant
            k <= stop <= s@.len(),
            forall|j: int| k <= j < stop ==> 48 <= #[trigger] s@[j] <= 57,
        decreases k,
    {
        k -= 1;
    }
    let first_digits_start = k;
    if first_digits_start == stop {
        return None;
    }
    if k > 0 && s[k - 1] == 46 {
        // The digits were the fraction; the integer part precedes the dot.
        let frac_start = first_digits_start;
        let frac_end = stop;
        let dot = k - 1;
        let mut j: usize = dot;
        while j > 0 && s[j - 1] >= 48 && s[j - 1] <= 57
            invariant
                j <= dot,
                dot < s@.len(),
            decreases j,
        {
            j -= 1;
        }
        if j == dot {
            return None;
        }
        int_start = j;
        int_end = dot;
        // Two fraction digits give hundredths; fewer scale up.
        let d1: u64 = (s[frac_start] - 48) as u64;
        let d2: u64 = if frac_start + 1 < frac_end {
            (s[frac_start + 1] - 48) as u64
        } else {
            0
        };
        frac = d1 * 10 + d2;
    } else {
        int_start = first_digits_start;
        int_end = stop;
    }
    match crate::text::parse_u64_range(s, int_start, int_end) {
        Some(v) => {
            if v <= (u64::MAX - frac) / 100 {
                Some(v * 100 + frac)
            } else {
                None
            }
        },
        None => None,
    }
}

/// Walk back from `pos` over ASCII spaces and tabs.
fn skip_spaces_back(s: &[u8], pos: usize) -> (r: usize)
    requires
        pos <= s@.len(),
    ensures
        r <= pos,
{
    let mut k: usize = pos;
    while k > 0 && (s[k - 1] == 32 || s[k - 1] == 9)
        invariant
            k <= pos <= s@.len(),
        decreases k,
    {
        k -= 1;
    }
    k
}

/// Extract a coverage percentage, in hundredths of a percent, from tool
/// summary text. Recognized forms, in order: a percentage followed by the
/// word `coverage`; a percentage on a `TOTAL` line; a percentage at the end
/// of a line.
pub fn parse_coverage_percentage(output: &str) -> (r: Option<u64>)
{
    let bytes = output.as_bytes();
    let n = bytes.len();
    // A percentage followed by the word "coverage".
    let mut from: usize = 0;
    while from < n
        invariant
            from <= n,
            n == bytes@.len(),
        decreases n - from,
    {
        match crate::text::find_sub(bytes, "coverage".as_bytes(), from) {
            Some(pos) => {
                let before = skip_spaces_back(bytes, pos);
                if before > 0 && bytes[before - 1] == 37 {
                    let digits_stop = skip_spaces_back(bytes, before - 1);
                    if let Some(v) = parse_decimal_before(bytes, digits_stop) {
                        return Some(v);
                    }
                }
                if pos >= n {
                    break;
                }
                from = pos + 1;
            },
            None => {
                break;
            },
        }
    }
    // A percentage on a TOTAL line.
    if let Some(total_pos) = crate::text::find_sub(bytes, "TOTAL".as_bytes(), 0) {
        let line_end = match crate::text::find_byte(bytes, total_pos, 10) {
            Some(e) => e,
            None => n,
        };
        let mut k: usize = total_pos;
        while k < line_end
            invariant
                total_pos <= k <= line_end <= n,
                n == bytes@.len(),
            decreases line_end - k,
        {
            if bytes[k] == 37 {
                let digits_stop = skip_spaces_back(bytes, k);
                if let Some(v) = parse_decimal_before(bytes, digits_stop) {
                    return Some(v);
                }
            }
            k += 1;
        }
    }
    // A percentage at the end of a line.
    let mut start: usize = 0;
    while start < n
        invariant
            start <= n,
            n == bytes@.len(),
        decreases n - start,
    {
        let end = match crate::text::find_byte(bytes, start, 10) {
            Some(e) => e,
            None => n,
        };
        let (_ta, tb) = crate::text::trim_range(bytes, start, end);
        if tb > start && bytes[tb - 1] == 37 {
            let digits_stop = skip_spaces_back(bytes, tb - 1);
            if let Some(v) = parse_decimal_before(bytes, digits_stop) {
                return Some(v);
            }
        }
        start = if end < n {
            end + 1
        } else {
            n
        };
    }
    None
}

/// Append a percentage in hundredths as `<int>.<2 digits>`, e.g. `75.00`.
pub fn push_percent_hundredths(s: &mut String, hundredths: u64)
    ensures
        final(s)@.len() > old(s)@.len(),
{
    proof {
        reveal_strlit(".");
    }
    push_dec(s, hundredths / 100);
    s.append(".");
    push_digit(s, hundredths / 10 % 10);
    push_digit(s, hundredths % 10);
}

} // verus!
