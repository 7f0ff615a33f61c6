//! The PII guardrail plugin's inspection: credit card numbers, e-mail
//! addresses and API keys / secret tokens in a tool call's arguments.

use crate::text::{join, saturating_u64};
use crate::wasm::wit_types::{GuardrailResult, InspectionContext, PolicyDecision, ViolationRisk};
use std::time::Instant;
use vstd::prelude::*;

verus! {

#[verifier::external_type_specification]
#[verifier::external_body]
pub struct ExRegex(regex::Regex);

#[verifier::external_type_specification]
#[verifier::external_body]
pub struct ExInstant(std::time::Instant);

/// Pattern of credit card numbers: 13 to 16 digits, optionally separated.
pub const CREDIT_CARD_PATTERN: &'static str = "\\b(?:\\d[ -]*?){13,16}\\b";

/// Pattern of e-mail addresses.
pub const EMAIL_PATTERN: &'static str = "\\b[A-Za-z0-9._%+-]+@[A-Za-z0-9.-]+\\.[A-Za-z]{2,}\\b";

/// Pattern of API keys and secret tokens: test secret keys (letters, digits and
/// underscores after the prefix), GitHub tokens and bearer credentials.
pub const API_KEY_PATTERN: &'static str = "(sk_test_[0-9a-zA-Z_]{24,}|ghp_[0-9a-zA-Z]{36}|Bearer\\s+[A-Za-z0-9\\-\\._~\\+\\/]+=*)";

/// `regex::Regex::new` accepts `pattern`.
pub uninterp spec fn regex_compiles(pattern: Seq<char>) -> bool;

/// `regex::Regex::is_match` finds a match of `pattern` in `text`.
pub uninterp spec fn regex_is_match(pattern: Seq<char>, text: Seq<char>) -> bool;

/// A compiled regular expression together with its source pattern.
pub(crate) struct CompiledPattern {
    source: String,
    regex: regex::Regex,
}

impl CompiledPattern {
    /// The pattern the expression was compiled from.
    pub(crate) closed spec fn source(&self) -> Seq<char> {
        self.source@
    }

    /// Compiles `pattern` with `regex::Regex::new`.
    ///
    /// The contract claims that success is `regex_compiles` of the pattern and
    /// that the compiled expression remembers its pattern; the regex syntax is
    /// the `regex` crate's and is not restated.
    #[verifier::external_body]
    pub(crate) fn compile(pattern: &str) -> (r: Option<Self>)
        ensures
            r is Some == regex_compiles(pattern@),
            r matches Some(c) ==> c.source() == pattern@,
    {
        match regex::Regex::new(pattern) {
            Ok(regex) => Some(CompiledPattern { source: pattern.to_string(), regex }),
            Err(_) => None,
        }
    }

    /// Whether the expression matches somewhere in `text`, by `regex::Regex::is_match`.
    ///
    /// The contract names the result `regex_is_match` of the source pattern and
    /// the text.
    #[verifier::external_body]
    pub(crate) fn is_match(&self, text: &str) -> (r: bool)
        ensures
            r == regex_is_match(self.source(), text@),
    {
        self.regex.is_match(text)
    }
}

/// The current instant, by `std::time::Instant::now`. Nothing is claimed of it.
#[verifier::external_body]
fn clock_now() -> Instant {
    Instant::now()
}

/// Microseconds elapsed since `start`, from `Instant::elapsed` and
/// `Duration::as_micros`. Nothing is claimed of the value: it depends on the
/// clock.
#[verifier::external_body]
fn micros_since(start: &Instant) -> u128 {
    start.elapsed().as_micros()
}

/// The labels of the kinds of PII found, in the order they are checked.
pub open spec fn pii_labels(card: bool, email: bool, api_key: bool) -> Seq<Seq<char>> {
    let a = if card {
        seq!["Credit Card Number"@]
    } else {
        Seq::<Seq<char>>::empty()
    };
    let b = if email {
        a.push("Email Address"@)
    } else {
        a
    };
    if api_key {
        b.push("API Key / Secret Token"@)
    } else {
        b
    }
}

/// The view of a list of metadata pairs.
pub open spec fn pairs_view(v: Seq<(String, String)>) -> Seq<(Seq<char>, Seq<char>)> {
    v.map_values(|p: (String, String)| (p.0@, p.1@))
}

/// The plugin's verdict given which kinds of PII were found: a clean payload
/// passes at low risk; otherwise it is denied, at critical risk when a card
/// number or a secret was found and at high risk for e-mail addresses alone.
pub open spec fn is_pii_verdict(
    r: GuardrailResult,
    card: bool,
    email: bool,
    api_key: bool,
    elapsed_us: u64,
) -> bool {
    let labels = pii_labels(card, email, api_key);
    let joined = join(labels, ", "@);
    &&& r.execution_time_us == elapsed_us
    &&& if !card && !email && !api_key {
        &&& r.decision is Allow
        &&& r.risk == ViolationRisk::Low
        &&& pairs_view(r.metadata@) == seq![("pii_status"@, "clean"@)]
    } else {
        &&& r.decision matches PolicyDecision::Deny(reason) && reason@ == "PII payload detected: "@
            + joined
        &&& r.risk == (if card || api_key {
            ViolationRisk::Critical
        } else {
            ViolationRisk::High
        })
        &&& pairs_view(r.metadata@) == seq![
            ("pii_status"@, "detected"@),
            ("pii_matches"@, joined),
        ]
    }
}

/// What any verdict of the plugin amounts to: it denies exactly when some PII
/// was found, and a card number or a secret makes the risk critical whatever
/// else was found; e-mail addresses alone are a high risk, and a clean payload
/// passes at low risk. The reason names every kind found, in the order card,
/// e-mail, secret.
pub proof fn law_pii_verdict_levels(
    r: GuardrailResult,
    card: bool,
    email: bool,
    api_key: bool,
    elapsed_us: u64,
)
    requires
        is_pii_verdict(r, card, email, api_key, elapsed_us),
    ensures
        r.decision is Deny <==> (card || email || api_key),
        card ==> r.risk == ViolationRisk::Critical,
        api_key ==> r.risk == ViolationRisk::Critical,
        r.risk == ViolationRisk::Critical <==> (card || api_key),
        (email && !card && !api_key) <==> r.risk == ViolationRisk::High,
        !(card || email || api_key) <==> r.risk == ViolationRisk::Low,
        card && email && !api_key ==> (r.decision matches PolicyDecision::Deny(reason) && reason@
            == "PII payload detected: Credit Card Number, Email Address"@),
{
    if card && email && !api_key {
        let labels = pii_labels(card, email, api_key);
        assert(labels =~= seq!["Credit Card Number"@, "Email Address"@]);
        assert(labels.drop_last() =~= seq!["Credit Card Number"@]);
        assert(join(labels, ", "@) == join(labels.drop_last(), ", "@) + ", "@ + labels.last());
        assert("PII payload detected: "@ + join(labels, ", "@) =~= "PII payload detected: Credit Card Number, Email Address"@) by {
            reveal_strlit("PII payload detected: ");
            reveal_strlit("Credit Card Number");
            reveal_strlit("Email Address");
            reveal_strlit(", ");
            reveal_strlit("PII payload detected: Credit Card Number, Email Address");
        }
    }
}

/// The PII filter plugin.
pub struct PiiFilterPlugin;

impl PiiFilterPlugin {
    /// The verdict for a payload in which the given kinds of PII were found.
    pub fn verdict(card: bool, email: bool, api_key: bool, elapsed_us: u64) -> (r:
        GuardrailResult)
        ensures
            is_pii_verdict(r, card, email, api_key, elapsed_us),
            r.decision is Deny <==> (card || email || api_key),
            r.decision is Allow <==> !(card || email || api_key),
            r.risk == ViolationRisk::Critical <==> (card || api_key),
            r.risk == ViolationRisk::High <==> (email && !card && !api_key),
            r.risk == ViolationRisk::Low <==> !(card || email || api_key),
    {
        let mut matched: Vec<String> = Vec::new();
        if card {
            matched.push(String::from_str("Credit Card Number"));
        }
        if email {
            matched.push(String::from_str("Email Address"));
        }
        if api_key {
            matched.push(String::from_str("API Key / Secret Token"));
        }
        assert(matched@.map_values(|s: String| s@) =~= pii_labels(card, email, api_key));
        if matched.len() == 0 {
            let mut metadata: Vec<(String, String)> = Vec::new();
            metadata.push((String::from_str("pii_status"), String::from_str("clean")));
            assert(pairs_view(metadata@) =~= seq![("pii_status"@, "clean"@)]);
            GuardrailResult {
                decision: PolicyDecision::Allow,
                risk: ViolationRisk::Low,
                execution_time_us: elapsed_us,
                metadata,
            }
        } else {
            let joined = crate::text::join_strings(&matched, ", ");
            let mut reason = String::from_str("PII payload detected: ");
            reason.append(joined.as_str());
            let mut metadata: Vec<(String, String)> = Vec::new();
            metadata.push((String::from_str("pii_status"), String::from_str("detected")));
            metadata.push((String::from_str("pii_matches"), joined));
            assert(pairs_view(metadata@) =~= seq![
                ("pii_status"@, "detected"@),
                ("pii_matches"@, join(pii_labels(card, email, api_key), ", "@)),
            ]);
            GuardrailResult {
                decision: PolicyDecision::Deny(reason),
                risk: if card || api_key {
                    ViolationRisk::Critical
                } else {
                    ViolationRisk::High
                },
                execution_time_us: elapsed_us,
                metadata,
            }
        }
    }

    /// Inspects the arguments of a tool call with compiled patterns for card
    /// numbers, e-mail addresses and secrets; the execution time is counted
    /// from `started`, in microseconds saturating at `u64::MAX`.
    pub(crate) fn inspect_with(
        ctx: &InspectionContext,
        card: &CompiledPattern,
        email: &CompiledPattern,
        api_key: &CompiledPattern,
        started: &Instant,
    ) -> (r: GuardrailResult)
        ensures
            exists|elapsed: u64|
                is_pii_verdict(
                    r,
                    regex_is_match(card.source(), ctx.arguments_json@),
                    regex_is_match(email.source(), ctx.arguments_json@),
                    regex_is_match(api_key.source(), ctx.arguments_json@),
                    elapsed,
                ),
    {
        let payload = ctx.arguments_json.as_str();
        let c = card.is_match(payload);
        let e = email.is_match(payload);
        let a = api_key.is_match(payload);
        let elapsed = saturating_u64(micros_since(started));
        PiiFilterPlugin::verdict(c, e, a, elapsed)
    }

    /// Inspects the arguments of a tool call for PII with the plugin's three
    /// patterns. `None` if one of the patterns does not compile.
    pub fn inspect(ctx: &InspectionContext) -> (r: Option<GuardrailResult>)
        ensures
            (regex_compiles(CREDIT_CARD_PATTERN@) && regex_compiles(EMAIL_PATTERN@)
                && regex_compiles(API_KEY_PATTERN@)) <==> r is Some,
            r matches Some(res) ==> exists|elapsed: u64|
                is_pii_verdict(
                    res,
                    regex_is_match(CREDIT_CARD_PATTERN@, ctx.arguments_json@),
                    regex_is_match(EMAIL_PATTERN@, ctx.arguments_json@),
                    regex_is_match(API_KEY_PATTERN@, ctx.arguments_json@),
                    elapsed,
                ),
    {
        let started = clock_now();
        let card = CompiledPattern::compile(CREDIT_CARD_PATTERN);
        let email = CompiledPattern::compile(EMAIL_PATTERN);
        let api_key = CompiledPattern::compile(API_KEY_PATTERN);
        match (card, email, api_key) {
            (Some(c), Some(e), Some(a)) => Some(PiiFilterPlugin::inspect_with(ctx, &c, &e, &a, &started)),
            _ => None,
        }
    }
}

} // verus!
