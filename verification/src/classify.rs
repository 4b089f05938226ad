//! Response classification: the verdict for one candidate, judged from the
//! outcome of its request and the configured status-code policy.

use vstd::prelude::*;

verus! {

/// How a request that could not produce a response ended.
#[derive(Clone, Copy, PartialEq, Eq, Structural, Debug)]
pub enum FailureKind {
    /// Every allowed attempt timed out.
    TimeoutExhausted,
    /// The connection could not be established (refused, reset, DNS failure).
    ConnectionError,
    /// TLS negotiation or certificate validation failed.
    TlsError,
}

/// What a completed HTTP exchange yielded.
pub struct ResponseInfo {
    /// The status code of the final response.
    pub status: u16,
    /// The effective URL, after any redirects that were followed.
    pub url: String,
    /// The size of the response body in bytes.
    pub size: u64,
    /// How long the exchange took, in milliseconds.
    pub latency_ms: u64,
}

/// The mathematical model of a `ResponseInfo`.
pub struct ResponseInfoView {
    pub status: u16,
    pub url: Seq<char>,
    pub size: u64,
    pub latency_ms: u64,
}

impl View for ResponseInfo {
    type V = ResponseInfoView;

    open spec fn view(&self) -> ResponseInfoView {
        ResponseInfoView {
            status: self.status,
            url: self.url@,
            size: self.size,
            latency_ms: self.latency_ms,
        }
    }
}

/// The result of executing one candidate: either a response or a terminal
/// failure.
pub enum RequestOutcome {
    Response(ResponseInfo),
    Failure(FailureKind),
}

/// The mathematical model of a `RequestOutcome`.
pub enum RequestOutcomeView {
    Response(ResponseInfoView),
    Failure(FailureKind),
}

impl View for RequestOutcome {
    type V = RequestOutcomeView;

    open spec fn view(&self) -> RequestOutcomeView {
        match self {
            RequestOutcome::Response(ri) => RequestOutcomeView::Response(ri@),
            RequestOutcome::Failure(k) => RequestOutcomeView::Failure(*k),
        }
    }
}

/// The verdict on one candidate.
#[derive(Clone, Copy, PartialEq, Eq, Structural, Debug)]
pub enum Verdict {
    /// The path counts as present on the target.
    Found,
    /// A response arrived but the status policy rules the path out.
    Filtered,
    /// No response could be obtained.
    Error,
}

/// The status-code policy: exactly one of an allow-list or a deny-list.
pub enum StatusPolicy {
    /// A status counts as found exactly when it is listed.
    Allow(Vec<u16>),
    /// A status counts as found exactly when it is not listed.
    Deny(Vec<u16>),
}

/// The mathematical model of a `StatusPolicy`.
pub enum StatusPolicyView {
    Allow(Seq<u16>),
    Deny(Seq<u16>),
}

impl View for StatusPolicy {
    type V = StatusPolicyView;

    open spec fn view(&self) -> StatusPolicyView {
        match self {
            StatusPolicy::Allow(l) => StatusPolicyView::Allow(l@),
            StatusPolicy::Deny(l) => StatusPolicyView::Deny(l@),
        }
    }
}

/// The policy chosen from the two optional status-code lists: a supplied
/// deny-list always wins; with neither list supplied, the default deny-list
/// `{404}` applies. An allow-list that was supplied explicitly is used as
/// given, even when empty — an empty allow-list accepts nothing.
pub open spec fn spec_make_policy(allow: Option<Seq<u16>>, deny: Option<Seq<u16>>) -> StatusPolicyView {
    match deny {
        Some(d) => StatusPolicyView::Deny(d),
        None => match allow {
            Some(a) => StatusPolicyView::Allow(a),
            None => StatusPolicyView::Deny(seq![404u16]),
        },
    }
}

/// Builds the status-code policy from the two optional lists of the
/// configuration surface. A supplied deny-list wins over a supplied
/// allow-list; with neither, the default deny-list `{404}` applies.
pub fn make_policy(allow: Option<Vec<u16>>, deny: Option<Vec<u16>>) -> (p: StatusPolicy)
    ensures
        p@ == spec_make_policy(allow.deep_view(), deny.deep_view()),
{
    match deny {
        Some(d) => {
            proof {
                assert(d.deep_view() =~= d@);
            }
            StatusPolicy::Deny(d)
        },
        None => match allow {
            Some(a) => {
                proof {
                    assert(a.deep_view() =~= a@);
                }
                StatusPolicy::Allow(a)
            },
            None => {
                let mut defaults: Vec<u16> = Vec::new();
                defaults.push(404);
                proof {
                    assert(defaults@ =~= seq![404u16]);
                }
                StatusPolicy::Deny(defaults)
            },
        },
    }
}

/// The verdict for an outcome under a policy: a terminal failure is an
/// `Error`; a response is `Found` exactly when its status is listed in the
/// allow-list, or not listed in the deny-list; otherwise `Filtered`.
pub open spec fn spec_classify(o: RequestOutcomeView, p: StatusPolicyView) -> Verdict {
    match o {
        RequestOutcomeView::Failure(_) => Verdict::Error,
        RequestOutcomeView::Response(ri) => match p {
            StatusPolicyView::Allow(l) => if l.contains(ri.status) {
                Verdict::Found
            } else {
                Verdict::Filtered
            },
            StatusPolicyView::Deny(l) => if l.contains(ri.status) {
                Verdict::Filtered
            } else {
                Verdict::Found
            },
        },
    }
}

/// Whether `code` occurs in `codes`; membership is by exact numeric match.
fn contains_code(codes: &Vec<u16>, code: u16) -> (r: bool)
    ensures
        r == codes@.contains(code),
{
    let mut i: usize = 0;
    while i < codes.len()
        invariant
            i <= codes@.len(),
            forall|j: int| 0 <= j < i ==> codes@[j] != code,
        decreases codes@.len() - i,
    {
        if codes[i] == code {
            return true;
        }
        i = i + 1;
    }
    false
}

/// Classifies one request outcome under the status-code policy.
pub fn classify(outcome: &RequestOutcome, policy: &StatusPolicy) -> (v: Verdict)
    ensures
        v == spec_classify(outcome@, policy@),
{
    match outcome {
        RequestOutcome::Failure(_) => Verdict::Error,
        RequestOutcome::Response(ri) => match policy {
            StatusPolicy::Allow(l) => {
                if contains_code(l, ri.status) {
                    Verdict::Found
                } else {
                    Verdict::Filtered
                }
            },
            StatusPolicy::Deny(l) => {
                if contains_code(l, ri.status) {
                    Verdict::Filtered
                } else {
                    Verdict::Found
                }
            },
        },
    }
}

/// The classifier is total: every pair of an outcome and a policy maps to
/// exactly one of the three verdicts.
pub proof fn lemma_classifier_total(o: RequestOutcomeView, p: StatusPolicyView)
    ensures
        spec_classify(o, p) == Verdict::Found || spec_classify(o, p) == Verdict::Filtered
            || spec_classify(o, p) == Verdict::Error,
{
}

/// Deny-list/allow-list exclusivity: when both lists are supplied, the
/// resulting policy classifies every outcome exactly as the policy built from
/// the deny-list alone — the allow-list has no effect.
pub proof fn lemma_deny_list_wins(o: RequestOutcomeView, allow: Seq<u16>, deny: Seq<u16>)
    ensures
        spec_classify(o, spec_make_policy(Some(allow), Some(deny))) == spec_classify(
            o,
            spec_make_policy(None, Some(deny)),
        ),
{
}

} // verus!
