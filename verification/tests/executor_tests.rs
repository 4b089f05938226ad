use rustbuster::classify::{FailureKind, RequestOutcome, ResponseInfo};
use rustbuster::executor::{
    execute_recorded, executor_step, total_attempts, AttemptOutcome, ExecDecision, RetryPolicy,
};

fn ok_attempt(status: u16) -> AttemptOutcome {
    AttemptOutcome::Response(ResponseInfo {
        status,
        url: "http://example.test/a".to_string(),
        size: 3,
        latency_ms: 5,
    })
}

#[test]
fn total_attempts_counts_the_first_attempt_plus_retries() {
    assert_eq!(total_attempts(&RetryPolicy { enabled: true, attempts: 3 }), 4);
    assert_eq!(total_attempts(&RetryPolicy { enabled: false, attempts: 3 }), 1);
    assert_eq!(total_attempts(&RetryPolicy { enabled: true, attempts: 0 }), 1);
}

#[test]
fn retry_enabled_makes_exactly_n_plus_one_attempts_on_timeouts() {
    let policy = RetryPolicy { enabled: true, attempts: 3 };
    let attempts = vec![
        AttemptOutcome::TimedOut,
        AttemptOutcome::TimedOut,
        AttemptOutcome::TimedOut,
        AttemptOutcome::TimedOut,
        AttemptOutcome::TimedOut,
    ];
    match execute_recorded(&policy, attempts) {
        Some((RequestOutcome::Failure(FailureKind::TimeoutExhausted), used)) => {
            assert_eq!(used, 4);
        }
        _ => panic!("expected timeout exhaustion after exactly four attempts"),
    }
}

#[test]
fn retry_disabled_makes_exactly_one_attempt_on_timeout() {
    let policy = RetryPolicy { enabled: false, attempts: 3 };
    let attempts = vec![AttemptOutcome::TimedOut, AttemptOutcome::TimedOut];
    match execute_recorded(&policy, attempts) {
        Some((RequestOutcome::Failure(FailureKind::TimeoutExhausted), used)) => {
            assert_eq!(used, 1);
        }
        _ => panic!("expected a terminal timeout after one attempt"),
    }
}

#[test]
fn a_response_ends_the_candidate_at_once() {
    let policy = RetryPolicy { enabled: true, attempts: 3 };
    let attempts = vec![AttemptOutcome::TimedOut, ok_attempt(200), AttemptOutcome::TimedOut];
    match execute_recorded(&policy, attempts) {
        Some((RequestOutcome::Response(ri), used)) => {
            assert_eq!(used, 2);
            assert_eq!(ri.status, 200);
        }
        _ => panic!("expected the response to end the candidate"),
    }
}

#[test]
fn connection_errors_are_never_retried() {
    let policy = RetryPolicy { enabled: true, attempts: 5 };
    let attempts = vec![AttemptOutcome::ConnectionFailed, ok_attempt(200)];
    match execute_recorded(&policy, attempts) {
        Some((RequestOutcome::Failure(FailureKind::ConnectionError), used)) => {
            assert_eq!(used, 1);
        }
        _ => panic!("expected an immediate connection failure"),
    }
}

#[test]
fn tls_errors_are_never_retried() {
    let policy = RetryPolicy { enabled: true, attempts: 5 };
    match executor_step(&policy, 0, AttemptOutcome::TlsFailed) {
        ExecDecision::Finished(RequestOutcome::Failure(FailureKind::TlsError)) => {}
        _ => panic!("expected an immediate TLS failure"),
    }
}

#[test]
fn step_retries_a_timeout_while_attempts_remain() {
    let policy = RetryPolicy { enabled: true, attempts: 2 };
    match executor_step(&policy, 0, AttemptOutcome::TimedOut) {
        ExecDecision::Retry => {}
        _ => panic!("first timeout should retry"),
    }
    match executor_step(&policy, 1, AttemptOutcome::TimedOut) {
        ExecDecision::Retry => {}
        _ => panic!("second timeout should retry"),
    }
    match executor_step(&policy, 2, AttemptOutcome::TimedOut) {
        ExecDecision::Finished(RequestOutcome::Failure(FailureKind::TimeoutExhausted)) => {}
        _ => panic!("third timeout should exhaust the retries"),
    }
}

#[test]
fn an_exhausted_recording_yields_none() {
    let policy = RetryPolicy { enabled: true, attempts: 3 };
    let attempts = vec![AttemptOutcome::TimedOut, AttemptOutcome::TimedOut];
    assert!(execute_recorded(&policy, attempts).is_none());
}
