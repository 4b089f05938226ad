//! The request executor's retry policy: how the attempts made for one
//! candidate fold into a single request outcome.
//!
//! The network work itself — issuing an attempt and waiting for it — is the
//! surrounding application's. The decision after each attempt is made here:
//! a response or a terminal failure ends the candidate at once; a timeout is
//! retried while the policy still allows another attempt, and becomes the
//! timeout-exhausted failure once it does not.

use vstd::prelude::*;
use crate::classify::FailureKind;
use crate::classify::RequestOutcome;
use crate::classify::RequestOutcomeView;
use crate::classify::ResponseInfo;
use crate::classify::ResponseInfoView;

verus! {

/// The retry policy of one scan: whether timed-out attempts are retried, and
/// how many extra attempts a candidate may use beyond its first.
#[derive(Clone, Copy, PartialEq, Eq, Structural, Debug)]
pub struct RetryPolicy {
    /// Whether a timed-out attempt is retried at all.
    pub enabled: bool,
    /// How many retries a candidate may use beyond its first attempt.
    pub attempts: u8,
}

/// How many attempts in total a candidate may use under `p`: the first one,
/// plus `p.attempts` retries when retrying is enabled.
pub open spec fn allowed_attempts(p: RetryPolicy) -> nat {
    if p.enabled {
        p.attempts as nat + 1
    } else {
        1
    }
}

/// Executable form of `allowed_attempts`.
pub fn total_attempts(policy: &RetryPolicy) -> (n: u64)
    ensures
        n == allowed_attempts(*policy),
{
    if policy.enabled {
        policy.attempts as u64 + 1
    } else {
        1
    }
}

/// What one attempt at a candidate yielded.
pub enum AttemptOutcome {
    /// A response arrived.
    Response(ResponseInfo),
    /// The attempt timed out.
    TimedOut,
    /// The connection could not be established.
    ConnectionFailed,
    /// TLS negotiation or certificate validation failed.
    TlsFailed,
}

/// The mathematical model of an `AttemptOutcome`.
pub enum AttemptOutcomeView {
    Response(ResponseInfoView),
    TimedOut,
    ConnectionFailed,
    TlsFailed,
}

impl View for AttemptOutcome {
    type V = AttemptOutcomeView;

    open spec fn view(&self) -> AttemptOutcomeView {
        match self {
            AttemptOutcome::Response(ri) => AttemptOutcomeView::Response(ri@),
            AttemptOutcome::TimedOut => AttemptOutcomeView::TimedOut,
            AttemptOutcome::ConnectionFailed => AttemptOutcomeView::ConnectionFailed,
            AttemptOutcome::TlsFailed => AttemptOutcomeView::TlsFailed,
        }
    }
}

impl DeepView for AttemptOutcome {
    type V = AttemptOutcomeView;

    open spec fn deep_view(&self) -> AttemptOutcomeView {
        self.view()
    }
}

/// What the executor does after one attempt: try again, or finish the
/// candidate with its outcome.
pub enum ExecDecision {
    Retry,
    Finished(RequestOutcome),
}

/// The mathematical model of an `ExecDecision`.
pub enum ExecDecisionView {
    Retry,
    Finished(RequestOutcomeView),
}

impl View for ExecDecision {
    type V = ExecDecisionView;

    open spec fn view(&self) -> ExecDecisionView {
        match self {
            ExecDecision::Retry => ExecDecisionView::Retry,
            ExecDecision::Finished(o) => ExecDecisionView::Finished(o@),
        }
    }
}

/// The decision after one attempt, given how many attempts were already made
/// before it. A response finishes with that response; a connection or TLS
/// failure finishes with the matching terminal failure, never retried; a
/// timeout retries while the attempts made so far, this one included, stay
/// under the allowed total, and otherwise finishes as timeout-exhausted.
pub open spec fn spec_executor_step(
    p: RetryPolicy,
    prior_attempts: nat,
    attempt: AttemptOutcomeView,
) -> ExecDecisionView {
    match attempt {
        AttemptOutcomeView::Response(ri) => ExecDecisionView::Finished(
            RequestOutcomeView::Response(ri),
        ),
        AttemptOutcomeView::ConnectionFailed => ExecDecisionView::Finished(
            RequestOutcomeView::Failure(FailureKind::ConnectionError),
        ),
        AttemptOutcomeView::TlsFailed => ExecDecisionView::Finished(
            RequestOutcomeView::Failure(FailureKind::TlsError),
        ),
        AttemptOutcomeView::TimedOut => if prior_attempts + 1 < allowed_attempts(p) {
            ExecDecisionView::Retry
        } else {
            ExecDecisionView::Finished(RequestOutcomeView::Failure(FailureKind::TimeoutExhausted))
        },
    }
}

/// Folds one attempt into the executor's decision. `prior_attempts` counts
/// the attempts already made for this candidate before the one given here.
pub fn executor_step(policy: &RetryPolicy, prior_attempts: u64, attempt: AttemptOutcome) -> (d:
    ExecDecision)
    requires
        prior_attempts < allowed_attempts(*policy),
    ensures
        d@ == spec_executor_step(*policy, prior_attempts as nat, attempt@),
{
    match attempt {
        AttemptOutcome::Response(ri) => ExecDecision::Finished(RequestOutcome::Response(ri)),
        AttemptOutcome::ConnectionFailed => ExecDecision::Finished(
            RequestOutcome::Failure(FailureKind::ConnectionError),
        ),
        AttemptOutcome::TlsFailed => ExecDecision::Finished(
            RequestOutcome::Failure(FailureKind::TlsError),
        ),
        AttemptOutcome::TimedOut => {
            let allowed = total_attempts(policy);
            if prior_attempts + 1 < allowed {
                ExecDecision::Retry
            } else {
                ExecDecision::Finished(RequestOutcome::Failure(FailureKind::TimeoutExhausted))
            }
        },
    }
}

/// Retry bound. With retrying enabled and `p.attempts` retries allowed, a
/// candidate whose every attempt times out retries after each of its first
/// `p.attempts` attempts and finishes as timeout-exhausted on the attempt
/// after that: exactly `p.attempts + 1` attempts occur. With retrying
/// disabled, the very first timeout is terminal.
pub proof fn lemma_retry_bound(p: RetryPolicy, prior_attempts: nat)
    ensures
        p.enabled && prior_attempts < p.attempts ==> spec_executor_step(
            p,
            prior_attempts,
            AttemptOutcomeView::TimedOut,
        ) == ExecDecisionView::Retry,
        p.enabled && prior_attempts == p.attempts ==> spec_executor_step(
            p,
            prior_attempts,
            AttemptOutcomeView::TimedOut,
        ) == ExecDecisionView::Finished(
            RequestOutcomeView::Failure(FailureKind::TimeoutExhausted),
        ),
        !p.enabled ==> spec_executor_step(p, 0, AttemptOutcomeView::TimedOut)
            == ExecDecisionView::Finished(
            RequestOutcomeView::Failure(FailureKind::TimeoutExhausted),
        ),
{
}

/// The outcome and attempt count of running the executor against a recorded
/// sequence of attempt outcomes: the decisions are folded from the front of
/// `attempts` until one finishes the candidate. `Some((o, n))` means the
/// candidate finished with outcome `o` after consuming exactly `n` recorded
/// attempts; `None` means the recording ran out first.
pub open spec fn spec_execute_recorded(
    p: RetryPolicy,
    attempts: Seq<AttemptOutcomeView>,
    prior_attempts: nat,
) -> Option<(RequestOutcomeView, nat)>
    decreases attempts.len(),
{
    if attempts.len() == 0 {
        None
    } else {
        match spec_executor_step(p, prior_attempts, attempts.first()) {
            ExecDecisionView::Finished(o) => Some((o, prior_attempts + 1)),
            ExecDecisionView::Retry => spec_execute_recorded(
                p,
                attempts.drop_first(),
                prior_attempts + 1,
            ),
        }
    }
}

/// Retry bound, over a whole run: when retrying is enabled and every
/// recorded attempt times out, a run that starts with `prior` attempts
/// already made finishes as timeout-exhausted after the attempt that brings
/// the total to exactly `p.attempts + 1` — no earlier, no later. With
/// `prior == 0` this is the whole candidate: exactly `p.attempts + 1`
/// attempts occur.
pub proof fn lemma_retry_bound_run(p: RetryPolicy, attempts: Seq<AttemptOutcomeView>, prior: nat)
    requires
        p.enabled,
        forall|i: int| 0 <= i < attempts.len() ==> attempts[i] == AttemptOutcomeView::TimedOut,
        prior <= p.attempts,
        attempts.len() + prior >= p.attempts + 1,
    ensures
        spec_execute_recorded(p, attempts, prior) == Some(
            (
                RequestOutcomeView::Failure(FailureKind::TimeoutExhausted),
                (p.attempts + 1) as nat,
            ),
        ),
    decreases attempts.len(),
{
    assert(attempts.first() == AttemptOutcomeView::TimedOut);
    if prior < p.attempts {
        lemma_retry_bound_run(p, attempts.drop_first(), prior + 1);
    }
}

/// With retrying disabled, the very first timeout is terminal: exactly one
/// attempt occurs.
pub proof fn lemma_no_retry_run(p: RetryPolicy, attempts: Seq<AttemptOutcomeView>)
    requires
        !p.enabled,
        attempts.len() >= 1,
        attempts.first() == AttemptOutcomeView::TimedOut,
    ensures
        spec_execute_recorded(p, attempts, 0) == Some(
            (RequestOutcomeView::Failure(FailureKind::TimeoutExhausted), 1nat),
        ),
{
}

/// Runs the executor's retry loop against a recorded sequence of attempt
/// outcomes, consuming them in order. This is the bounded retry loop of the
/// executor with the network replaced by the recording; the application's
/// live executor makes the same decisions through `executor_step`.
#[verifier::loop_isolation(false)]
pub fn execute_recorded(policy: &RetryPolicy, attempts: Vec<AttemptOutcome>) -> (r: Option<
    (RequestOutcome, u64),
>)
    ensures
        r matches Some(p) ==> spec_execute_recorded(
            *policy,
            attempts.deep_view(),
            0,
        ) == Some((p.0@, p.1 as nat)),
        r is None ==> spec_execute_recorded(*policy, attempts.deep_view(), 0) is None,
{
    let ghost all = attempts.deep_view();
    let mut used: u64 = 0;
    let mut rest = attempts;
    loop
        invariant
            used < allowed_attempts(*policy),
            spec_execute_recorded(*policy, all, 0) == spec_execute_recorded(
                *policy,
                rest.deep_view(),
                used as nat,
            ),
        decreases rest@.len(),
    {
        if rest.len() == 0 {
            proof {
                assert(rest.deep_view().len() == 0);
            }
            return None;
        }
        let ghost rest_before = rest.deep_view();
        let attempt = rest.remove(0);
        proof {
            assert(rest.deep_view() =~= rest_before.drop_first());
            assert(attempt.deep_view() == rest_before.first());
        }
        let d = executor_step(policy, used, attempt);
        used = used + 1;
        proof {
            assert(spec_execute_recorded(*policy, rest_before, (used - 1) as nat) == (
            match spec_executor_step(*policy, (used - 1) as nat, rest_before.first()) {
                ExecDecisionView::Finished(o) => Some((o, used as nat)),
                ExecDecisionView::Retry => spec_execute_recorded(
                    *policy,
                    rest_before.drop_first(),
                    used as nat,
                ),
            }));
        }
        match d {
            ExecDecision::Finished(o) => {
                return Some((o, used));
            },
            ExecDecision::Retry => {},
        }
    }
}

} // verus!
