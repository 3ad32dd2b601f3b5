//! Evidence records and run metadata, with their JSON renderings.

use vstd::prelude::*;

use crate::clock::{now_unix_millis, rfc3339_millis_of};
use crate::text::push_dec;

verus! {

/// The current evidence schema version.
pub const EVIDENCE_SCHEMA_VERSION: u32 = 1;

/// An evidence record for a run event.
#[derive(Clone, Debug)]
pub struct EvidenceRecord {
    /// Evidence schema version.
    pub schema_version: u32,
    /// Run identifier for correlation.
    pub run_id: String,
    /// When the record was captured, in Unix milliseconds.
    pub recorded_at_ms: u64,
    /// The kind of evidence stored, such as `lifecycle`.
    pub kind: String,
    /// The record payload, as JSON text.
    pub payload_json: String,
}

impl EvidenceRecord {
    /// A record stamped with the current time.
    pub fn new(run_id: String, kind: String, payload_json: String) -> (r: Self)
        ensures
            r.schema_version == EVIDENCE_SCHEMA_VERSION,
            r.run_id == run_id,
            r.kind == kind,
            r.payload_json == payload_json,
    {
        EvidenceRecord {
            schema_version: EVIDENCE_SCHEMA_VERSION,
            run_id,
            recorded_at_ms: now_unix_millis(),
            kind,
            payload_json,
        }
    }

    /// The one-line JSON rendering of this record, as appended to the
    /// events log.
    pub fn to_json_line(&self) -> (r: String)
        ensures
            r@ == spec_record_line(*self),
    {
        let mut out = String::from_str("{\"schema_version\":");
        push_dec(&mut out, self.schema_version as u64);
        out.append(",\"run_id\":");
        push_json_string(&mut out, self.run_id.as_str());
        out.append(",\"recorded_at\":");
        let ts = rfc3339_millis_of(self.recorded_at_ms);
        push_json_string(&mut out, ts.as_str());
        out.append(",\"kind\":");
        push_json_string(&mut out, self.kind.as_str());
        out.append(",\"payload\":");
        out.append(self.payload_json.as_str());
        out.append("}");
        proof {
            assert(out@ =~= spec_record_line(*self));
        }
        out
    }
}

/// The characters of a record's one-line JSON rendering: the fields in a
/// fixed order, strings as escaped literals, the timestamp in RFC 3339
/// with milliseconds, and the payload embedded as it stands.
pub open spec fn spec_record_line(rec: EvidenceRecord) -> Seq<char> {
    "{\"schema_version\":"@ + crate::text::dec_chars(rec.schema_version as int)
        + ",\"run_id\":"@ + json_string_chars(rec.run_id@) + ",\"recorded_at\":"@
        + json_string_chars(crate::clock::rfc3339_millis_chars(rec.recorded_at_ms))
        + ",\"kind\":"@ + json_string_chars(rec.kind@) + ",\"payload\":"@
        + rec.payload_json@ + "}"@
}

/// Metadata stored alongside the evidence records of a run.
#[derive(Clone, Debug)]
pub struct EvidenceRunMetadata {
    /// Evidence schema version.
    pub schema_version: u32,
    /// Run identifier.
    pub run_id: String,
    /// When the run's evidence was created, in Unix milliseconds.
    pub created_at_ms: u64,
    /// When the latest record was stored, in Unix milliseconds.
    pub updated_at_ms: u64,
    /// Total number of stored records.
    pub record_count: u64,
}

impl EvidenceRunMetadata {
    /// Fresh metadata for a run, with no records yet.
    pub fn new(run_id: String, timestamp_ms: u64) -> (r: Self)
        ensures
            r.schema_version == EVIDENCE_SCHEMA_VERSION,
            r.run_id == run_id,
            r.created_at_ms == timestamp_ms,
            r.updated_at_ms == timestamp_ms,
            r.record_count == 0,
    {
        EvidenceRunMetadata {
            schema_version: EVIDENCE_SCHEMA_VERSION,
            run_id,
            created_at_ms: timestamp_ms,
            updated_at_ms: timestamp_ms,
            record_count: 0,
        }
    }

    /// Account for one newly stored record: the update time moves to the
    /// record's and the count grows by one, saturating.
    pub fn record(&mut self, timestamp_ms: u64)
        ensures
            final(self).schema_version == old(self).schema_version,
            final(self).run_id == old(self).run_id,
            final(self).created_at_ms == old(self).created_at_ms,
            final(self).updated_at_ms == timestamp_ms,
            final(self).record_count == if old(self).record_count < u64::MAX {
                old(self).record_count + 1
            } else {
                u64::MAX as int
            },
            final(self).record_count >= old(self).record_count,
    {
        self.updated_at_ms = timestamp_ms;
        if self.record_count < u64::MAX {
            self.record_count = self.record_count + 1;
        }
    }

    /// The JSON rendering of this metadata, as written to the run manifest.
    pub fn to_json(&self) -> (r: String)
        ensures
            r@ == spec_metadata_json(*self),
    {
        let mut out = String::from_str("{\"schema_version\":");
        push_dec(&mut out, self.schema_version as u64);
        out.append(",\"run_id\":");
        push_json_string(&mut out, self.run_id.as_str());
        out.append(",\"created_at\":");
        let created = rfc3339_millis_of(self.created_at_ms);
        push_json_string(&mut out, created.as_str());
        out.append(",\"updated_at\":");
        let updated = rfc3339_millis_of(self.updated_at_ms);
        push_json_string(&mut out, updated.as_str());
        out.append(",\"record_count\":");
        push_dec(&mut out, self.record_count);
        out.append("}");
        proof {
            assert(out@ =~= spec_metadata_json(*self));
        }
        out
    }
}

/// The characters of a run manifest's JSON rendering: the fields in a
/// fixed order, timestamps in RFC 3339 with milliseconds.
pub open spec fn spec_metadata_json(m: EvidenceRunMetadata) -> Seq<char> {
    "{\"schema_version\":"@ + crate::text::dec_chars(m.schema_version as int)
        + ",\"run_id\":"@ + json_string_chars(m.run_id@) + ",\"created_at\":"@
        + json_string_chars(crate::clock::rfc3339_millis_chars(m.created_at_ms))
        + ",\"updated_at\":"@
        + json_string_chars(crate::clock::rfc3339_millis_chars(m.updated_at_ms))
        + ",\"record_count\":"@ + crate::text::dec_chars(m.record_count as int) + "}"@
}

/// The hexadecimal digit byte for `d` in 0..16, lower case.
pub open spec fn hex_digit_byte(d: int) -> u8 {
    if d < 10 {
        (48 + d) as u8
    } else {
        (87 + d) as u8
    }
}

/// How one byte appears inside a JSON string literal: quotes, backslashes
/// and control characters are escaped, everything else stands as itself.
pub open spec fn json_escape_byte(b: u8) -> Seq<u8> {
    if b == 34 {
        seq![92u8, 34u8]
    } else if b == 92 {
        seq![92u8, 92u8]
    } else if b == 10 {
        seq![92u8, 110u8]
    } else if b == 13 {
        seq![92u8, 114u8]
    } else if b == 9 {
        seq![92u8, 116u8]
    } else if b < 32 {
        seq![92u8, 117u8, 48u8, 48u8, hex_digit_byte(b as int / 16), hex_digit_byte(b as int % 16)]
    } else {
        seq![b]
    }
}

/// The escaped form of a whole byte sequence.
pub open spec fn json_escape_bytes(s: Seq<u8>) -> Seq<u8>
    decreases s.len(),
{
    if s.len() == 0 {
        Seq::empty()
    } else {
        json_escape_byte(s[0]) + json_escape_bytes(s.drop_first())
    }
}

/// The bytes of the JSON string literal for a text: a quote, the escaped
/// UTF-8 bytes, a quote.
pub open spec fn json_string_bytes(s: Seq<char>) -> Seq<u8> {
    seq![34u8] + json_escape_bytes(vstd::utf8::encode_utf8(s)) + seq![34u8]
}

/// The characters of the JSON string literal for a text.
pub open spec fn json_string_chars(s: Seq<char>) -> Seq<char> {
    vstd::utf8::decode_utf8(json_string_bytes(s))
}

proof fn lemma_escape_snoc(w: Seq<u8>, b: u8)
    ensures
        json_escape_bytes(w.push(b)) == json_escape_bytes(w) + json_escape_byte(b),
    decreases w.len(),
{
    if w.len() == 0 {
        assert(w.push(b).drop_first() =~= Seq::<u8>::empty());
        assert(w.push(b)[0] == b);
        assert(json_escape_bytes(Seq::<u8>::empty()) =~= Seq::<u8>::empty());
        assert(json_escape_bytes(w.push(b)) =~= json_escape_byte(b) + Seq::<u8>::empty());
        assert(json_escape_byte(b) + Seq::<u8>::empty() =~= json_escape_byte(b));
        assert(json_escape_bytes(w) =~= Seq::<u8>::empty());
        assert(json_escape_bytes(w) + json_escape_byte(b) =~= json_escape_byte(b));
    } else {
        assert(w.push(b).drop_first() =~= w.drop_first().push(b));
        assert(w.push(b)[0] == w[0]);
        lemma_escape_snoc(w.drop_first(), b);
        assert(json_escape_byte(w[0]) + (json_escape_bytes(w.drop_first()) + json_escape_byte(b))
            =~= (json_escape_byte(w[0]) + json_escape_bytes(w.drop_first())) + json_escape_byte(
            b,
        ));
    }
}

proof fn lemma_escape_concat(a: Seq<u8>, b: Seq<u8>)
    ensures
        json_escape_bytes(a + b) == json_escape_bytes(a) + json_escape_bytes(b),
    decreases a.len(),
{
    if a.len() == 0 {
        assert(a + b =~= b);
        assert(json_escape_bytes(a) =~= Seq::<u8>::empty());
        assert(json_escape_bytes(a) + json_escape_bytes(b) =~= json_escape_bytes(b));
    } else {
        assert((a + b).drop_first() =~= a.drop_first() + b);
        assert((a + b)[0] == a[0]);
        lemma_escape_concat(a.drop_first(), b);
        assert(json_escape_byte(a[0]) + (json_escape_bytes(a.drop_first()) + json_escape_bytes(b))
            =~= (json_escape_byte(a[0]) + json_escape_bytes(a.drop_first())) + json_escape_bytes(
            b,
        ));
    }
}

proof fn lemma_escape_identity(a: Seq<u8>)
    requires
        forall|i: int| 0 <= i < a.len() ==> a[i] >= 0x80,
    ensures
        json_escape_bytes(a) == a,
    decreases a.len(),
{
    if a.len() == 0 {
        assert(json_escape_bytes(a) =~= a);
    } else {
        lemma_escape_identity(a.drop_first());
        assert(json_escape_byte(a[0]) =~= seq![a[0]]);
        assert(seq![a[0]] + a.drop_first() =~= a);
    }
}

proof fn lemma_ascii_seq_valid(a: Seq<u8>)
    requires
        forall|i: int| 0 <= i < a.len() ==> a[i] < 0x80,
    ensures
        vstd::utf8::valid_utf8(a),
    decreases a.len(),
{
    if a.len() > 0 {
        assert(vstd::utf8::is_leading_byte_width_1(a[0]));
        assert(vstd::utf8::length_of_first_codepoint(a) == 1);
        let b0 = a[0];
        assert((b0 & 0x7f) < 0x80) by (bit_vector);
        assert(vstd::utf8::valid_first_scalar(a));
        assert(vstd::utf8::pop_first_scalar(a) =~= a.drop_first());
        lemma_ascii_seq_valid(a.drop_first());
    }
}

proof fn lemma_escape_byte_ascii(b: u8)
    requires
        b < 0x80,
    ensures
        forall|i: int| 0 <= i < json_escape_byte(b).len() ==> json_escape_byte(b)[i] < 0x80,
{
}

/// The escaped form of valid UTF-8 is valid UTF-8.
proof fn lemma_json_escape_valid(w: Seq<u8>)
    requires
        vstd::utf8::valid_utf8(w),
    ensures
        vstd::utf8::valid_utf8(json_escape_bytes(w)),
    decreases w.len(),
{
    if w.len() > 0 {
        let k = vstd::utf8::length_of_first_scalar(w);
        let rest = vstd::utf8::pop_first_scalar(w);
        lemma_json_escape_valid(rest);
        if k == 1 {
            assert(rest =~= w.drop_first());
            lemma_escape_byte_ascii(w[0]);
            lemma_ascii_seq_valid(json_escape_byte(w[0]));
            vstd::utf8::valid_utf8_concat(json_escape_byte(w[0]), json_escape_bytes(rest));
        } else {
            let head = vstd::utf8::take_first_scalar(w);
            assert(w =~= head + rest);
            lemma_escape_concat(head, rest);
            assert forall|i: int| 0 <= i < head.len() implies head[i] >= 0x80 by {
                assert(head[i] == w[i]);
            }
            lemma_escape_identity(head);
            assert(vstd::utf8::valid_first_scalar(head));
            assert(vstd::utf8::length_of_first_scalar(head) == k);
            assert(vstd::utf8::pop_first_scalar(head) =~= Seq::<u8>::empty());
            assert(vstd::utf8::pop_first_scalar(head) == Seq::<u8>::empty());
            assert(vstd::utf8::valid_utf8(Seq::<u8>::empty()));
            assert(vstd::utf8::valid_utf8(head)) by {
                reveal_with_fuel(vstd::utf8::valid_utf8, 2);
            }
            vstd::utf8::valid_utf8_concat(head, json_escape_bytes(rest));
        }
    }
}

/// The literal bytes of a text are valid UTF-8, so they decode to the
/// literal's characters.
pub proof fn lemma_json_string_bytes_valid(s: Seq<char>)
    ensures
        vstd::utf8::valid_utf8(json_string_bytes(s)),
        vstd::utf8::encode_utf8(json_string_chars(s)) == json_string_bytes(s),
{
    vstd::utf8::encode_utf8_valid_utf8(s);
    lemma_json_escape_valid(vstd::utf8::encode_utf8(s));
    lemma_ascii_seq_valid(seq![34u8]);
    vstd::utf8::valid_utf8_concat(json_escape_bytes(vstd::utf8::encode_utf8(s)), seq![34u8]);
    vstd::utf8::valid_utf8_concat(
        seq![34u8],
        json_escape_bytes(vstd::utf8::encode_utf8(s)) + seq![34u8],
    );
    assert(seq![34u8] + (json_escape_bytes(vstd::utf8::encode_utf8(s)) + seq![34u8])
        =~= json_string_bytes(s));
    vstd::utf8::decode_utf8_encode_utf8(json_string_bytes(s));
}

/// Append `s` to `out` as a JSON string literal, escaping quotes,
/// backslashes and control characters.
pub fn push_json_string(out: &mut String, s: &str)
    ensures
        final(out)@ == old(out)@ + json_string_chars(s@),
{
    let bytes = s.as_bytes();
    let mut buf: Vec<u8> = Vec::new();
    buf.push(34);
    proof {
        assert(buf@ =~= seq![34u8] + json_escape_bytes(bytes@.take(0)));
    }
    let mut i: usize = 0;
    while i < bytes.len()
        invariant
            i <= bytes@.len(),
            bytes@ == vstd::utf8::encode_utf8(s@),
            buf@ == seq![34u8] + json_escape_bytes(bytes@.take(i as int)),
        decreases bytes@.len() - i,
    {
        let ghost pre = buf@;
        let b = bytes[i];
        if b == 34 {
            buf.push(92);
            buf.push(34);
        } else if b == 92 {
            buf.push(92);
            buf.push(92);
        } else if b == 10 {
            buf.push(92);
            buf.push(110);
        } else if b == 13 {
            buf.push(92);
            buf.push(114);
        } else if b == 9 {
            buf.push(92);
            buf.push(116);
        } else if b < 32 {
            buf.push(92);
            buf.push(117);
            buf.push(48);
            buf.push(48);
            let hi = b / 16;
            let lo = b % 16;
            buf.push(if hi < 10 { 48 + hi } else { 87 + hi });
            buf.push(if lo < 10 { 48 + lo } else { 87 + lo });
        } else {
            buf.push(b);
        }
        proof {
            lemma_escape_snoc(bytes@.take(i as int), b);
            assert(bytes@.take(i + 1) =~= bytes@.take(i as int).push(b));
            assert(buf@ =~= pre + json_escape_byte(b));
            assert(buf@ =~= seq![34u8] + json_escape_bytes(bytes@.take(i + 1)));
        }
        i += 1;
    }
    buf.push(34);
    proof {
        assert(bytes@.take(bytes@.len() as int) =~= bytes@);
        assert(buf@ =~= json_string_bytes(s@));
        lemma_json_string_bytes_valid(s@);
    }
    let escaped = crate::text::string_of_bytes(buf.as_slice());
    proof {
        vstd::utf8::encode_utf8_decode_utf8(escaped@);
        assert(escaped@ == json_string_chars(s@));
    }
    out.append(escaped.as_str());
}

} // verus!
