use rustbuster::classify::{
    classify, make_policy, FailureKind, RequestOutcome, ResponseInfo, StatusPolicy, Verdict,
};

fn response(status: u16) -> RequestOutcome {
    RequestOutcome::Response(ResponseInfo {
        status,
        url: "http://example.test/x".to_string(),
        size: 0,
        latency_ms: 1,
    })
}

#[test]
fn default_policy_is_deny_404() {
    let p = make_policy(None, None);
    match &p {
        StatusPolicy::Deny(l) => assert_eq!(l, &vec![404u16]),
        StatusPolicy::Allow(_) => panic!("expected the default deny-list"),
    }
    assert_eq!(classify(&response(200), &p), Verdict::Found);
    assert_eq!(classify(&response(404), &p), Verdict::Filtered);
}

#[test]
fn deny_list_wins_when_both_are_supplied() {
    let both = make_policy(Some(vec![200]), Some(vec![404, 500]));
    let deny_only = make_policy(None, Some(vec![404, 500]));
    for status in [200u16, 204, 301, 404, 500] {
        assert_eq!(
            classify(&response(status), &both),
            classify(&response(status), &deny_only)
        );
    }
    // 200 sits on the ignored allow-list; the deny-list semantics still rule.
    assert_eq!(classify(&response(500), &both), Verdict::Filtered);
    assert_eq!(classify(&response(301), &both), Verdict::Found);
}

#[test]
fn allow_list_membership_decides_found() {
    let p = make_policy(Some(vec![200, 204]), None);
    assert_eq!(classify(&response(200), &p), Verdict::Found);
    assert_eq!(classify(&response(204), &p), Verdict::Found);
    assert_eq!(classify(&response(404), &p), Verdict::Filtered);
}

#[test]
fn redirect_not_on_allow_list_is_filtered() {
    let p = make_policy(Some(vec![200, 204]), None);
    assert_eq!(classify(&response(301), &p), Verdict::Filtered);
}

#[test]
fn empty_allow_list_accepts_nothing() {
    let p = make_policy(Some(vec![]), None);
    for status in [200u16, 204, 301, 404, 500] {
        assert_eq!(classify(&response(status), &p), Verdict::Filtered);
    }
}

#[test]
fn terminal_failures_classify_as_error_under_any_policy() {
    let deny = make_policy(None, Some(vec![404]));
    let allow = make_policy(Some(vec![200]), None);
    for kind in [
        FailureKind::TimeoutExhausted,
        FailureKind::ConnectionError,
        FailureKind::TlsError,
    ] {
        assert_eq!(classify(&RequestOutcome::Failure(kind), &deny), Verdict::Error);
        assert_eq!(classify(&RequestOutcome::Failure(kind), &allow), Verdict::Error);
    }
}

#[test]
fn membership_is_exact_numeric_match() {
    let p = make_policy(None, Some(vec![404]));
    assert_eq!(classify(&response(403), &p), Verdict::Found);
    assert_eq!(classify(&response(405), &p), Verdict::Found);
    assert_eq!(classify(&response(404), &p), Verdict::Filtered);
}
