//! Verified text utilities: byte-level scanning, trimming and searching, and
//! decimal formatting, with exact sequence-level contracts.

use vstd::prelude::*;

verus! {

/// An ASCII space, tab, carriage return or line feed.
pub open spec fn is_space_byte(b: u8) -> bool {
    b == 32 || b == 9 || b == 13 || b == 10
}

/// Relies on `String::from_utf8_lossy`: a valid UTF-8 byte sequence is
/// returned unchanged as a string.
#[verifier::external_body]
pub fn string_of_bytes(v: &[u8]) -> (r: String)
    ensures
        vstd::utf8::valid_utf8(v@) ==> vstd::utf8::encode_utf8(r@) == v@,
{
    String::from_utf8_lossy(v).into_owned()
}

/// The decimal digit character for `d` in 0..10.
pub open spec fn dec_digit(d: int) -> char {
    if d == 0 { '0' }
    else if d == 1 { '1' }
    else if d == 2 { '2' }
    else if d == 3 { '3' }
    else if d == 4 { '4' }
    else if d == 5 { '5' }
    else if d == 6 { '6' }
    else if d == 7 { '7' }
    else if d == 8 { '8' }
    else { '9' }
}

/// The decimal digit characters of `n`, most significant first.
pub open spec fn dec_chars(n: int) -> Seq<char>
    decreases n,
{
    if n < 10 {
        seq![dec_digit(n)]
    } else {
        dec_chars(n / 10).push(dec_digit(n % 10))
    }
}

/// Append one decimal digit character for `d` in 0..10.
pub fn push_digit(s: &mut String, d: u64)
    requires
        d < 10,
    ensures
        final(s)@ == old(s)@ + seq![dec_digit(d as int)],
{
    proof {
        reveal_strlit("0");
        reveal_strlit("1");
        reveal_strlit("2");
        reveal_strlit("3");
        reveal_strlit("4");
        reveal_strlit("5");
        reveal_strlit("6");
        reveal_strlit("7");
        reveal_strlit("8");
        reveal_strlit("9");
    }
    match d {
        0 => s.append("0"),
        1 => s.append("1"),
        2 => s.append("2"),
        3 => s.append("3"),
        4 => s.append("4"),
        5 => s.append("5"),
        6 => s.append("6"),
        7 => s.append("7"),
        8 => s.append("8"),
        _ => s.append("9"),
    }
    proof {
        assert(s@ =~= old(s)@ + seq![dec_digit(d as int)]);
    }
}

/// Append the decimal rendering of `n` to `s`.
pub fn push_dec(s: &mut String, n: u64)
    ensures
        final(s)@ == old(s)@ + dec_chars(n as int),
    decreases n,
{
    if n >= 10 {
        push_dec(s, n / 10);
        push_digit(s, n % 10);
        proof {
            assert(s@ =~= old(s)@ + dec_chars(n as int));
        }
    } else {
        push_digit(s, n);
    }
}

/// Whether two byte slices hold the same bytes.
pub fn bytes_eq(a: &[u8], b: &[u8]) -> (r: bool)
    ensures
        r == (a@ == b@),
{
    if a.len() != b.len() {
        proof {
            assert(a@ != b@);
        }
        return false;
    }
    let mut i: usize = 0;
    while i < a.len()
        invariant
            i <= a.len(),
            a.len() == b.len(),
            forall|k: int| 0 <= k < i ==> a@[k] == b@[k],
        decreases a.len() - i,
    {
        if a[i] != b[i] {
            return false;
        }
        i += 1;
    }
    proof {
        assert(a@ =~= b@);
    }
    true
}

/// Whether `s` begins with prefix `p` at offset `from`.
pub open spec fn matches_at(s: Seq<u8>, p: Seq<u8>, from: int) -> bool {
    0 <= from && from + p.len() <= s.len() && s.subrange(from, from + p.len()) == p
}

/// Check whether `s` begins with `p` at offset `from`.
pub fn starts_with_at(s: &[u8], p: &[u8], from: usize) -> (r: bool)
    ensures
        r == matches_at(s@, p@, from as int),
{
    if from > s.len() || p.len() > s.len() - from {
        return false;
    }
    let mut i: usize = 0;
    while i < p.len()
        invariant
            i <= p.len(),
            from + p.len() <= s.len(),
            forall|k: int| 0 <= k < i ==> s@[from + k] == p@[k],
        decreases p.len() - i,
    {
        if s[from + i] != p[i] {
            proof {
                assert(s@.subrange(from as int, from + p@.len())[i as int] == s@[from + i]);
            }
            return false;
        }
        i += 1;
    }
    proof {
        assert(s@.subrange(from as int, from + p@.len()) =~= p@);
    }
    true
}

/// Check whether `s` begins with `p`.
pub fn starts_with(s: &[u8], p: &[u8]) -> (r: bool)
    ensures
        r == matches_at(s@, p@, 0),
{
    starts_with_at(s, p, 0)
}

/// Check whether `s` ends with `p`.
pub fn ends_with(s: &[u8], p: &[u8]) -> (r: bool)
    ensures
        r == (p@.len() <= s@.len() && matches_at(s@, p@, s@.len() - p@.len())),
{
    if p.len() > s.len() {
        return false;
    }
    starts_with_at(s, p, s.len() - p.len())
}

/// Find the first occurrence of byte `b` in `s` at or after `from`.
pub fn find_byte(s: &[u8], from: usize, b: u8) -> (r: Option<usize>)
    ensures
        match r {
            Some(j) => from <= j < s@.len() && s@[j as int] == b && forall|k: int|
                from <= k < j ==> s@[k] != b,
            None => forall|k: int| from <= k < s@.len() ==> s@[k] != b,
        },
{
    let mut i: usize = from;
    if i > s.len() {
        return None;
    }
    while i < s.len()
        invariant
            from <= i <= s.len(),
            forall|k: int| from <= k < i ==> s@[k] != b,
        decreases s.len() - i,
    {
        if s[i] == b {
            return Some(i);
        }
        i += 1;
    }
    None
}

/// Find the first offset at or after `from` where `p` occurs in `s`.
pub fn find_sub(s: &[u8], p: &[u8], from: usize) -> (r: Option<usize>)
    ensures
        match r {
            Some(j) => from <= j && matches_at(s@, p@, j as int) && forall|k: int|
                from <= k < j ==> !matches_at(s@, p@, k),
            None => forall|k: int| from <= k ==> !matches_at(s@, p@, k),
        },
{
    if from > s.len() || p.len() > s.len() - from {
        return None;
    }
    let mut i: usize = from;
    let last: usize = s.len() - p.len();
    loop
        invariant
            from <= i <= last,
            p@.len() + last == s@.len(),
            forall|k: int| from <= k < i ==> !matches_at(s@, p@, k),
        decreases last - i,
    {
        if starts_with_at(s, p, i) {
            return Some(i);
        }
        if i == last {
            return None;
        }
        i += 1;
    }
}

/// Whether `p` occurs anywhere in `s`.
pub fn contains_sub(s: &[u8], p: &[u8]) -> (r: bool)
    ensures
        r == exists|k: int| matches_at(s@, p@, k),
{
    match find_sub(s, p, 0) {
        Some(j) => {
            proof {
                assert(matches_at(s@, p@, j as int));
            }
            true
        },
        None => false,
    }
}

/// The sub-slice of `s` covering `[i, j)`.
pub fn sub_bytes(s: &[u8], i: usize, j: usize) -> (r: Vec<u8>)
    requires
        i <= j <= s@.len(),
    ensures
        r@ == s@.subrange(i as int, j as int),
{
    let mut out: Vec<u8> = Vec::new();
    let mut k: usize = i;
    while k < j
        invariant
            i <= k <= j <= s@.len(),
            out@ == s@.subrange(i as int, k as int),
        decreases j - k,
    {
        out.push(s[k]);
        proof {
            assert(out@ =~= s@.subrange(i as int, k + 1));
        }
        k += 1;
    }
    out
}

/// Narrow `[i, j)` in `s` by removing leading and trailing ASCII whitespace.
pub fn trim_range(s: &[u8], i: usize, j: usize) -> (r: (usize, usize))
    requires
        i <= j <= s@.len(),
    ensures
        i <= r.0 <= r.1 <= j,
        forall|k: int| i <= k < r.0 ==> is_space_byte(s@[k]),
        forall|k: int| r.1 <= k < j ==> is_space_byte(s@[k]),
        r.0 < r.1 ==> !is_space_byte(s@[r.0 as int]) && !is_space_byte(s@[r.1 - 1]),
{
    let mut a: usize = i;
    let mut b: usize = j;
    while a < b && (s[a] == 32 || s[a] == 9 || s[a] == 13 || s[a] == 10)
        invariant
            i <= a <= b <= j <= s@.len(),
            forall|k: int| i <= k < a ==> is_space_byte(s@[k]),
        decreases b - a,
    {
        a += 1;
    }
    while a < b && (s[b - 1] == 32 || s[b - 1] == 9 || s[b - 1] == 13 || s[b - 1] == 10)
        invariant
            i <= a <= b <= j <= s@.len(),
            forall|k: int| b <= k < j ==> is_space_byte(s@[k]),
            a < b ==> !is_space_byte(s@[a as int]),
        decreases b - a,
    {
        b -= 1;
    }
    (a, b)
}

/// The value of the decimal digits of `v`, most significant first.
pub open spec fn dec_value(v: Seq<u8>) -> int
    decreases v.len(),
{
    if v.len() == 0 {
        0
    } else {
        dec_value(v.drop_last()) * 10 + (v.last() - 48)
    }
}

/// Whether every byte of `v` is a decimal digit.
pub open spec fn all_digits(v: Seq<u8>) -> bool {
    forall|k: int| 0 <= k < v.len() ==> 48 <= #[trigger] v[k] <= 57
}

/// Parse the byte range `[i, j)` of `s` as an unsigned decimal number.
///
/// Returns `None` when the range is empty, holds a non-digit, or overflows.
pub fn parse_u64_range(s: &[u8], i: usize, j: usize) -> (r: Option<u64>)
    requires
        i <= j <= s@.len(),
    ensures
        match r {
            Some(n) => j > i && all_digits(s@.subrange(i as int, j as int)) && n == dec_value(
                s@.subrange(i as int, j as int),
            ),
            None => i == j || !all_digits(s@.subrange(i as int, j as int)) || dec_value(
                s@.subrange(i as int, j as int),
            ) > u64::MAX,
        },
{
    if i == j {
        return None;
    }
    let mut acc: u64 = 0;
    let mut k: usize = i;
    while k < j
        invariant
            i <= k <= j <= s@.len(),
            all_digits(s@.subrange(i as int, k as int)),
            acc == dec_value(s@.subrange(i as int, k as int)),
        decreases j - k,
    {
        let b = s[k];
        if b < 48 || b > 57 {
            proof {
                assert(s@.subrange(i as int, j as int)[k - i] == s@[k as int]);
            }
            return None;
        }
        let d: u64 = (b - 48) as u64;
        if acc > (u64::MAX - d) / 10 {
            proof {
                let full = s@.subrange(i as int, j as int);
                let part = s@.subrange(i as int, k + 1);
                assert(part.drop_last() =~= s@.subrange(i as int, k as int));
                assert(part.last() == s@[k as int]);
                assert(acc * 10 + d > u64::MAX) by (nonlinear_arith)
                    requires
                        acc > (u64::MAX - d) / 10,
                        0 <= d < 10,
                        acc >= 0,
                ;
                assert(dec_value(part) == acc * 10 + d);
                if all_digits(full) {
                    assert(part =~= full.subrange(0, k + 1 - i));
                    lemma_dec_value_monotonic(full, k + 1 - i);
                    assert(dec_value(full) > u64::MAX);
                }
            }
            return None;
        }
        acc = acc * 10 + d;
        proof {
            assert(s@.subrange(i as int, k + 1).drop_last() =~= s@.subrange(i as int, k as int));
            assert(s@.subrange(i as int, k + 1).last() == s@[k as int]);
        }
        k += 1;
    }
    proof {
        assert(s@.subrange(i as int, j as int) =~= s@.subrange(i as int, k as int));
    }
    Some(acc)
}

/// A prefix of a digit string never exceeds the value of the whole.
proof fn lemma_dec_value_monotonic(v: Seq<u8>, n: int)
    requires
        0 <= n <= v.len(),
        all_digits(v),
    ensures
        dec_value(v.subrange(0, n)) <= dec_value(v),
    decreases v.len() - n,
{
    if n == v.len() {
        assert(v.subrange(0, n) =~= v);
    } else {
        lemma_dec_value_monotonic(v, n + 1);
        let p = v.subrange(0, n + 1);
        assert(p.drop_last() =~= v.subrange(0, n));
        assert(48 <= v[n] <= 57);
        assert(dec_value(p) == dec_value(v.subrange(0, n)) * 10 + (v[n] - 48));
        lemma_dec_value_nonneg(v.subrange(0, n));
    }
}

/// The decimal value of a digit string is non-negative.
proof fn lemma_dec_value_nonneg(v: Seq<u8>)
    requires
        all_digits(v),
    ensures
        dec_value(v) >= 0,
    decreases v.len(),
{
    if v.len() > 0 {
        assert(all_digits(v.drop_last()));
        lemma_dec_value_nonneg(v.drop_last());
        assert(48 <= v.last() <= 57);
    }
}

} // verus!

use vstd::string::StringSliceAdditionalSpecFns;

verus! {

/// Whether two string slices hold the same characters.
pub fn str_eq(a: &str, b: &str) -> (r: bool)
    ensures
        r == (a@ == b@),
{
    let r = bytes_eq(a.as_bytes(), b.as_bytes());
    proof {
        if a.spec_bytes() == b.spec_bytes() {
            vstd::utf8::encode_utf8_decode_utf8(a@);
            vstd::utf8::encode_utf8_decode_utf8(b@);
        }
    }
    r
}

} // verus!

verus! {

/// The product of two 64-bit values fits in 128 bits with room to spare.
pub proof fn lemma_u64_mul_fits_u128(a: u64, b: u64)
    ensures
        a as int * b as int <= u128::MAX - 1000,
{
    assert(a as int * b as int <= u64::MAX as int * u64::MAX as int) by (nonlinear_arith)
        requires
            0 <= a <= u64::MAX,
            0 <= b <= u64::MAX,
    ;
}

} // verus!

verus! {

/// Whether the characters of `s` begin with those of `p`, compared by
/// their UTF-8 bytes.
pub open spec fn str_has_prefix(s: Seq<char>, p: Seq<char>) -> bool {
    matches_at(vstd::utf8::encode_utf8(s), vstd::utf8::encode_utf8(p), 0)
}

/// Check whether string `a` starts with `p`.
pub fn str_starts_with(a: &str, p: &str) -> (r: bool)
    ensures
        r == str_has_prefix(a@, p@),
{
    starts_with(a.as_bytes(), p.as_bytes())
}

} // verus!

verus! {

/// Lexicographic (byte-wise) strict order on byte sequences.
pub open spec fn lex_lt(a: Seq<u8>, b: Seq<u8>) -> bool
    decreases a.len(),
{
    if b.len() == 0 {
        false
    } else if a.len() == 0 {
        true
    } else if a[0] < b[0] {
        true
    } else if a[0] > b[0] {
        false
    } else {
        lex_lt(a.drop_first(), b.drop_first())
    }
}

/// Compare two strings in byte-wise lexicographic order.
#[verifier::loop_isolation(false)]
pub fn str_lt(a: &str, b: &str) -> (r: bool)
    ensures
        r == lex_lt(vstd::utf8::encode_utf8(a@), vstd::utf8::encode_utf8(b@)),
{
    let x = a.as_bytes();
    let y = b.as_bytes();
    let mut i: usize = 0;
    proof {
        assert(x@.skip(0) =~= x@);
        assert(y@.skip(0) =~= y@);
    }
    loop
        invariant
            i <= x@.len(),
            i <= y@.len(),
            forall|k: int| 0 <= k < i ==> x@[k] == y@[k],
            lex_lt(x@, y@) == lex_lt(x@.skip(i as int), y@.skip(i as int)),
        decreases x@.len() - i,
    {
        if i == x.len() || i == y.len() {
            let r = x.len() < y.len();
            proof {
                assert(x@.skip(i as int).len() == x@.len() - i);
                assert(y@.skip(i as int).len() == y@.len() - i);
            }
            return r;
        }
        if x[i] != y[i] {
            let r = x[i] < y[i];
            proof {
                assert(x@.skip(i as int)[0] == x@[i as int]);
                assert(y@.skip(i as int)[0] == y@[i as int]);
            }
            return r;
        }
        proof {
            assert(x@.skip(i as int)[0] == x@[i as int]);
            assert(y@.skip(i as int)[0] == y@[i as int]);
            assert(x@.skip(i as int).drop_first() =~= x@.skip(i + 1));
            assert(y@.skip(i as int).drop_first() =~= y@.skip(i + 1));
        }
        i += 1;
    }
}

} // verus!

verus! {

/// The longest prefix of `s` that fits in `cap` bytes and ends on a
/// character boundary: the whole of `s` when its encoding fits.
pub fn prefix_within(s: &str, cap: usize) -> (r: &str)
    ensures
        vstd::utf8::encode_utf8(r@).len() <= cap,
        vstd::utf8::encode_utf8(r@) == vstd::utf8::encode_utf8(s@).subrange(
            0,
            vstd::utf8::encode_utf8(r@).len() as int,
        ),
        vstd::utf8::encode_utf8(s@).len() <= cap ==> r@ == s@,
{
    proof {
        vstd::utf8::encode_utf8_valid_utf8(s@);
    }
    let n = s.as_bytes().len();
    if n <= cap {
        proof {
            assert(vstd::utf8::encode_utf8(s@).subrange(
                0,
                vstd::utf8::encode_utf8(s@).len() as int,
            ) =~= vstd::utf8::encode_utf8(s@));
        }
        return s;
    }
    let mut k: usize = cap;
    while k > 0 && !s.is_char_boundary(k)
        invariant
            k <= cap,
            cap < n,
            n == s.spec_bytes().len(),
        decreases k,
    {
        k -= 1;
    }
    let (a, _rest) = s.split_at(k);
    proof {
        assert(a.spec_bytes().len() == k);
    }
    a
}

} // verus!
