//! Telemetry: W3C `traceparent` propagation and the gateway's metric samples.

use crate::headers::{
    get_header_text, header_text, is_header_value_char, is_visible_header_char,
    is_valid_header_value, valid_header_value,
};
use crate::strmap::StringMap;
use crate::text::{
    decimal, hex2, is_lower_hex_char, lacks_char, lemma_hex2_roundtrip, lemma_lower_hex_lacks,
    lemma_split_sep_then, lemma_split_single, parse_hex_u8, parse_hex_u8_exec, split_char, split_on,
    str_eq, u64_to_decimal, u8_to_hex2,
};
use vstd::prelude::*;

verus! {

/// W3C `traceparent` HTTP header name.
pub const TRACEPARENT_HEADER: &'static str = "traceparent";

/// W3C `tracestate` HTTP header name.
pub const TRACESTATE_HEADER: &'static str = "tracestate";

/// Metric name: HTTP request throughput counter.
pub const METRIC_HTTP_REQUESTS_TOTAL: &'static str = "aegis_http_requests_total";

/// Metric name: per-guardrail-layer processing latency histogram.
pub const METRIC_GUARDRAIL_LATENCY_SECONDS: &'static str = "aegis_guardrail_latency_seconds";

/// Metric name: security violation/denial event counter.
pub const METRIC_SECURITY_VIOLATIONS_TOTAL: &'static str = "aegis_security_violations_total";

/// Metric name: live WASM plugin instance pool gauge.
pub const METRIC_WASM_POOL_ACTIVE_INSTANCES: &'static str = "aegis_wasm_pool_active_instances";

/// Metric name: total Merkle tree leaf count gauge.
pub const METRIC_MERKLE_TREE_LEAVES_TOTAL: &'static str = "aegis_merkle_tree_leaves_total";

/// The `traceparent` text `00-<trace_id>-<span_id>-<flags as two lowercase hex digits>`.
pub open spec fn traceparent_of(trace_id: Seq<char>, span_id: Seq<char>, flags: u8) -> Seq<char> {
    seq!['0', '0'] + seq!['-'] + trace_id + seq!['-'] + span_id + seq!['-'] + hex2(flags)
}

/// What a `traceparent` value is read as: split at `-`; at least four pieces,
/// the first `00` (the only supported version), the second a trace id of 32
/// lowercase hexadecimal digits, the third a span id of 16, the fourth the
/// flags as two lowercase hexadecimal digits. Anything else is malformed.
pub open spec fn parse_traceparent(v: Seq<char>) -> Option<(Seq<char>, Seq<char>, u8)> {
    let parts = split_on(v, '-');
    if parts.len() < 4 || parts[0] != seq!['0', '0'] || !is_lower_hex_of_len(parts[1], 32)
        || !is_lower_hex_of_len(parts[2], 16) || !is_lower_hex_of_len(parts[3], 2) {
        None
    } else {
        match parse_hex_u8(parts[3]) {
            Some(f) => Some((parts[1], parts[2], f)),
            None => None,
        }
    }
}

/// `s` is `n` lowercase hexadecimal digits.
pub open spec fn is_lower_hex_of_len(s: Seq<char>, n: nat) -> bool {
    s.len() == n && forall|i: int| 0 <= i < s.len() ==> is_lower_hex_char(#[trigger] s[i])
}

/// Returns whether `s` is exactly `n` lowercase hexadecimal digits.
fn lower_hex_of_len(s: &str, n: usize) -> (r: bool)
    ensures
        r == is_lower_hex_of_len(s@, n as nat),
{
    let len = s.unicode_len();
    if len != n {
        return false;
    }
    let mut i: usize = 0;
    while i < len
        invariant
            len == s@.len(),
            i <= len,
            forall|j: int| 0 <= j < i ==> is_lower_hex_char(#[trigger] s@[j]),
        decreases len - i,
    {
        let c = s.get_char(i);
        if !(('0' <= c && c <= '9') || ('a' <= c && c <= 'f')) {
            return false;
        }
        i = i + 1;
    }
    true
}

/// The digit that the variant field of an RFC 4122 UUID starts with in hex.
pub open spec fn is_uuid_variant_digit(c: char) -> bool {
    c == '8' || c == '9' || c == 'a' || c == 'b'
}

/// A fresh random version-4 UUID in its simple form.
///
/// Calls `uuid::Uuid::new_v4` and renders it with `.simple().to_string()`. The
/// contract claims what the `uuid` crate gives for that form: 32 lowercase
/// hexadecimal digits, of which the 13th is the version digit `4` and the 17th
/// starts the RFC 4122 variant (`8`, `9`, `a` or `b`), as `new_v4` sets them.
/// The other digits are random.
#[verifier::external_body]
fn uuid_v4_simple() -> (r: String)
    ensures
        is_lower_hex_of_len(r@, 32),
        r@[12] == '4',
        is_uuid_variant_digit(r@[16]),
{
    uuid::Uuid::new_v4().simple().to_string()
}

/// `candidate`, unless it equals `avoid`; then `candidate` with its last digit
/// changed (to `1` if it was `0`, else to `0`).
fn distinct_span_id(candidate: String, avoid: &str) -> (r: String)
    requires
        is_lower_hex_of_len(candidate@, 16),
        candidate@[12] == '4',
    ensures
        is_lower_hex_of_len(r@, 16),
        r@[12] == '4',
        r@ != avoid@,
        candidate@ != avoid@ ==> r@ == candidate@,
{
    if !str_eq(candidate.as_str(), avoid) {
        return candidate;
    }
    let last = candidate.as_str().get_char(15);
    let mut r = String::from_str(candidate.as_str().substring_char(0, 15));
    let digit: &str = if last == '0' {
        "1"
    } else {
        "0"
    };
    proof {
        reveal_strlit("1");
        reveal_strlit("0");
    }
    r.append(digit);
    assert(r@[15] != candidate@[15]);
    assert(r@.len() == 16);
    r
}

/// W3C trace context: trace id, span id and sampling flags.
#[derive(Debug, Clone, PartialEq, Eq)]
pub struct TraceContext {
    /// 128-bit trace identifier (32 hex chars).
    pub trace_id: String,
    /// 64-bit span identifier (16 hex chars).
    pub span_id: String,
    /// Trace flags (0x01 = sampled).
    pub flags: u8,
}

impl TraceContext {
    /// A new root context from two random version-4 UUIDs: the trace id is the
    /// first halves of both (so its 13th and 29th digits are the version digit
    /// `4`), the span id the second half of the first (so it starts with the
    /// variant digit); the sampled flag is set.
    pub fn new_root() -> (r: Self)
        ensures
            is_lower_hex_of_len(r.trace_id@, 32),
            is_lower_hex_of_len(r.span_id@, 16),
            r.trace_id@[12] == '4',
            r.trace_id@[28] == '4',
            is_uuid_variant_digit(r.span_id@[0]),
            r.flags == 1,
    {
        let u1 = uuid_v4_simple();
        let u2 = uuid_v4_simple();
        let mut trace_id = String::from_str(u1.as_str().substring_char(0, 16));
        trace_id.append(u2.as_str().substring_char(0, 16));
        let span_id = String::from_str(u1.as_str().substring_char(16, 32));
        TraceContext { trace_id, span_id, flags: 0x01 }
    }

    /// Parses a `traceparent` header value (see `parse_traceparent`); `None` if
    /// it is malformed or its version is not `00`.
    pub fn from_traceparent(value: &str) -> (r: Option<Self>)
        ensures
            match parse_traceparent(value@) {
                Some((t, s, f)) => r matches Some(c) && c.trace_id@ == t && c.span_id@ == s
                    && c.flags == f,
                None => r is None,
            },
    {
        let parts = split_char(value, '-');
        proof {
            reveal_strlit("00");
            assert("00"@ =~= seq!['0', '0']);
        }
        if parts.len() < 4 || !str_eq(parts[0].as_str(), "00") || !lower_hex_of_len(
            parts[1].as_str(),
            32,
        ) || !lower_hex_of_len(parts[2].as_str(), 16) || !lower_hex_of_len(parts[3].as_str(), 2) {
            return None;
        }
        match parse_hex_u8_exec(parts[3].as_str()) {
            Some(flags) => Some(
                TraceContext { trace_id: parts[1].clone(), span_id: parts[2].clone(), flags },
            ),
            None => None,
        }
    }

    /// Serialises this context into a `traceparent` header value.
    pub fn to_traceparent(&self) -> (r: String)
        ensures
            r@ == traceparent_of(self.trace_id@, self.span_id@, self.flags),
    {
        let mut r = String::from_str("00-");
        r.append(self.trace_id.as_str());
        r.append("-");
        r.append(self.span_id.as_str());
        r.append("-");
        let h = u8_to_hex2(self.flags);
        r.append(h.as_str());
        proof {
            reveal_strlit("00-");
            reveal_strlit("-");
            assert(r@ =~= traceparent_of(self.trace_id@, self.span_id@, self.flags));
        }
        r
    }

    /// A child span: same trace id and flags, a fresh random 16-digit span id
    /// (the first half of a version-4 UUID, so its 13th digit is `4`) that is
    /// never the parent's own span id: in the unlikely event that the draw
    /// repeats it, its last digit is changed.
    pub fn child_span(&self) -> (r: Self)
        ensures
            r.trace_id@ == self.trace_id@,
            is_lower_hex_of_len(r.span_id@, 16),
            r.span_id@[12] == '4',
            r.span_id@ != self.span_id@,
            r.flags == self.flags,
    {
        let raw = uuid_v4_simple();
        let drawn = String::from_str(raw.as_str().substring_char(0, 16));
        TraceContext {
            trace_id: self.trace_id.clone(),
            span_id: distinct_span_id(drawn, self.span_id.as_str()),
            flags: self.flags,
        }
    }

    /// Returns `true` if the sampling flag is set.
    pub fn is_sampled(&self) -> (r: bool)
        ensures
            r == (self.flags % 2 == 1),
    {
        let f = self.flags;
        let r = f & 0x01 != 0;
        assert(r == (f % 2 == 1)) by (bit_vector)
            requires
                r == (f & 0x01 != 0),
        ;
        r
    }
}

/// Reading back a written `traceparent` gives the same context, whenever the
/// trace id is 32 and the span id 16 lowercase hexadecimal digits (the ids a
/// well-formed value carries).
pub proof fn law_traceparent_roundtrip(trace_id: Seq<char>, span_id: Seq<char>, flags: u8)
    requires
        is_lower_hex_of_len(trace_id, 32),
        is_lower_hex_of_len(span_id, 16),
    ensures
        parse_traceparent(traceparent_of(trace_id, span_id, flags)) == Some(
            (trace_id, span_id, flags),
        ),
{
    let zz = seq!['0', '0'];
    let h = hex2(flags);
    lemma_hex2_roundtrip(flags);
    lemma_lower_hex_lacks(h, '-');
    lemma_lower_hex_lacks(trace_id, '-');
    lemma_lower_hex_lacks(span_id, '-');
    assert(lacks_char(zz, '-'));
    lemma_split_single(zz, '-');
    lemma_split_sep_then(zz, trace_id, '-');
    lemma_split_sep_then(zz + seq!['-'] + trace_id, span_id, '-');
    lemma_split_sep_then(zz + seq!['-'] + trace_id + seq!['-'] + span_id, h, '-');
    let parts = split_on(traceparent_of(trace_id, span_id, flags), '-');
    assert(parts =~= seq![zz, trace_id, span_id, h]);
}

/// The trace context of a request: its parsed `traceparent` header text, or a
/// new root context when that header is absent, not text, or malformed.
pub fn extract_trace_context(headers: &StringMap) -> (r: TraceContext)
    ensures
        match header_text(headers@, TRACEPARENT_HEADER@) {
            Some(v) => match parse_traceparent(v) {
                Some((t, s, f)) => r.trace_id@ == t && r.span_id@ == s && r.flags == f,
                None => is_lower_hex_of_len(r.trace_id@, 32) && is_lower_hex_of_len(
                    r.span_id@,
                    16,
                ) && r.flags == 1,
            },
            None => is_lower_hex_of_len(r.trace_id@, 32) && is_lower_hex_of_len(r.span_id@, 16)
                && r.flags == 1,
        },
{
    match get_header_text(headers, TRACEPARENT_HEADER) {
        Some(v) => match TraceContext::from_traceparent(v.as_str()) {
            Some(c) => c,
            None => TraceContext::new_root(),
        },
        None => TraceContext::new_root(),
    }
}

/// `after` is `before` with the `traceparent` of a child span written in: for
/// a trace id that is an acceptable header value, the `traceparent` of that
/// trace id, the flags and a fresh 16-digit span id other than the parent's;
/// otherwise `before` unchanged.
pub open spec fn is_child_injection(
    before: Map<Seq<char>, Seq<char>>,
    after: Map<Seq<char>, Seq<char>>,
    trace_id: Seq<char>,
    parent_span: Seq<char>,
    flags: u8,
) -> bool {
    if is_valid_header_value(trace_id) {
        exists|s: Seq<char>|
            is_lower_hex_of_len(s, 16) && s != parent_span && after == before.insert(
                TRACEPARENT_HEADER@,
                traceparent_of(trace_id, s, flags),
            )
    } else {
        after == before
    }
}

/// Writes the `traceparent` of a child span of `ctx` into `headers` (the upstream
/// hop gets its own span id); leaves `headers` as they are when that value is not
/// an acceptable header value.
pub fn inject_trace_headers(headers: &mut StringMap, ctx: &TraceContext)
    ensures
        is_child_injection(old(headers)@, final(headers)@, ctx.trace_id@, ctx.span_id@, ctx.flags),
{
    let child = ctx.child_span();
    let tp = child.to_traceparent();
    let ok = valid_header_value(tp.as_str());
    proof {
        let t = ctx.trace_id@;
        let s = child.span_id@;
        let h = hex2(ctx.flags);
        lemma_hex2_roundtrip(ctx.flags);
        let v = traceparent_of(t, s, ctx.flags);
        let pre = seq!['0', '0'] + seq!['-'];
        let mid = seq!['-'] + s + seq!['-'];
        assert(v =~= pre + t + mid + h);
        if is_valid_header_value(t) {
            assert forall|i: int| 0 <= i < v.len() implies crate::headers::is_header_value_char(
                #[trigger] v[i],
            ) by {
                if i >= pre.len() + t.len() + mid.len() {
                    assert(v[i] == h[i - pre.len() - t.len() - mid.len()]);
                } else if i >= pre.len() + t.len() {
                    assert(v[i] == mid[i - pre.len() - t.len()]);
                } else if i >= pre.len() {
                    assert(v[i] == t[i - pre.len()]);
                }
            }
        } else {
            let i = choose|i: int| 0 <= i < t.len() && !crate::headers::is_header_value_char(t[i]);
            assert(v[pre.len() + i] == t[i]);
        }
    }
    if ok {
        headers.insert(String::from_str(TRACEPARENT_HEADER), tp);
    }
}

/// What `inject_trace_headers` writes is what `extract_trace_context` reads back:
/// a `traceparent` written for a 32-digit trace id, a 16-digit span id (both
/// lowercase hexadecimal) and any flags is present as text and parses to that same
/// trace id, span id and flags (so the extracted context keeps the trace id
/// and flags of the injected one). Such a trace id is also an acceptable
/// header value, which is when the injection writes the header at all.
pub proof fn law_inject_then_extract(
    headers: Map<Seq<char>, Seq<char>>,
    trace_id: Seq<char>,
    span_id: Seq<char>,
    flags: u8,
)
    requires
        is_lower_hex_of_len(trace_id, 32),
        is_lower_hex_of_len(span_id, 16),
    ensures
        is_valid_header_value(trace_id),
        header_text(
            headers.insert(TRACEPARENT_HEADER@, traceparent_of(trace_id, span_id, flags)),
            TRACEPARENT_HEADER@,
        ) == Some(traceparent_of(trace_id, span_id, flags)),
        parse_traceparent(traceparent_of(trace_id, span_id, flags)) == Some(
            (trace_id, span_id, flags),
        ),
{
    let v = traceparent_of(trace_id, span_id, flags);
    let h = hex2(flags);
    lemma_hex2_roundtrip(flags);
    lemma_lower_hex_lacks(span_id, '-');
    law_traceparent_roundtrip(trace_id, span_id, flags);
    let pre = seq!['0', '0'] + seq!['-'];
    let mid = seq!['-'] + span_id + seq!['-'];
    assert(v =~= pre + trace_id + mid + h);
    assert forall|i: int| 0 <= i < v.len() implies is_visible_header_char(#[trigger] v[i]) by {
        if i >= pre.len() + trace_id.len() + mid.len() {
            assert(v[i] == h[i - pre.len() - trace_id.len() - mid.len()]);
        } else if i >= pre.len() + trace_id.len() {
            assert(v[i] == mid[i - pre.len() - trace_id.len()]);
            if i > pre.len() + trace_id.len() && i < pre.len() + trace_id.len() + mid.len() - 1 {
                assert(v[i] == span_id[i - pre.len() - trace_id.len() - 1]);
            }
        } else if i >= pre.len() {
            assert(v[i] == trace_id[i - pre.len()]);
        }
    }
    assert forall|i: int| 0 <= i < trace_id.len() implies is_header_value_char(
        #[trigger] trace_id[i],
    ) by {
        assert(is_lower_hex_char(trace_id[i]));
    }
    assert(headers.insert(TRACEPARENT_HEADER@, v)[TRACEPARENT_HEADER@] == v);
}

/// Injecting a context and then extracting it gives the child span: the same
/// trace id and flags as the injected context, and a span id that is not the
/// injected context's own, for every well-formed trace id and every parent
/// span id.
pub proof fn law_injected_span_is_a_child(
    before: Map<Seq<char>, Seq<char>>,
    after: Map<Seq<char>, Seq<char>>,
    trace_id: Seq<char>,
    parent_span: Seq<char>,
    flags: u8,
)
    requires
        is_lower_hex_of_len(trace_id, 32),
        is_child_injection(before, after, trace_id, parent_span, flags),
    ensures
        header_text(after, TRACEPARENT_HEADER@) matches Some(v) && parse_traceparent(v) matches Some(
            (t, s, f),
        ) && t == trace_id && f == flags && s != parent_span && is_lower_hex_of_len(s, 16),
{
    let s = choose|s: Seq<char>|
        is_lower_hex_of_len(s, 16) && s != parent_span && after == before.insert(
            TRACEPARENT_HEADER@,
            traceparent_of(trace_id, s, flags),
        );
    law_inject_then_extract(before, trace_id, s, flags);
}

/// The `/metrics` exposition: the rendered text, or a comment saying that no
/// recorder was installed.
pub fn exposition_or_notice(rendered: Option<String>) -> (r: String)
    ensures
        r@ == (match rendered {
            Some(t) => t@,
            None => "# metrics recorder not initialised\n"@,
        }),
{
    match rendered {
        Some(t) => t,
        None => String::from_str("# metrics recorder not initialised\n"),
    }
}

/// A metric observation: the metric's name and its label pairs.
pub struct MetricSample {
    /// Metric name.
    pub name: String,
    /// Label names and values, in order.
    pub labels: Vec<(String, String)>,
}

/// The sample that one handled HTTP request adds to `aegis_http_requests_total`:
/// labels `method`, `status` (in decimal) and `route`.
pub fn http_request_sample(method: &str, status: u16, route: &str) -> (r: MetricSample)
    ensures
        r.name@ == METRIC_HTTP_REQUESTS_TOTAL@,
        r.labels@.len() == 3,
        r.labels@[0].0@ == "method"@ && r.labels@[0].1@ == method@,
        r.labels@[1].0@ == "status"@ && r.labels@[1].1@ == decimal(status as nat),
        r.labels@[2].0@ == "route"@ && r.labels@[2].1@ == route@,
{
    let mut labels: Vec<(String, String)> = Vec::new();
    labels.push((String::from_str("method"), String::from_str(method)));
    labels.push((String::from_str("status"), u64_to_decimal(status as u64)));
    labels.push((String::from_str("route"), String::from_str(route)));
    MetricSample { name: String::from_str(METRIC_HTTP_REQUESTS_TOTAL), labels }
}

/// The sample that one security violation adds to `aegis_security_violations_total`.
pub fn security_violation_sample(violation_type: &str) -> (r: MetricSample)
    ensures
        r.name@ == METRIC_SECURITY_VIOLATIONS_TOTAL@,
        r.labels@.len() == 1,
        r.labels@[0].0@ == "violation_type"@ && r.labels@[0].1@ == violation_type@,
{
    let mut labels: Vec<(String, String)> = Vec::new();
    labels.push((String::from_str("violation_type"), String::from_str(violation_type)));
    MetricSample { name: String::from_str(METRIC_SECURITY_VIOLATIONS_TOTAL), labels }
}

} // verus!
