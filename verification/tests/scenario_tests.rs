//! End-to-end runs of the engine with a fake backend in place of the network:
//! resolve the wordlist, execute each candidate against the scripted backend,
//! classify, and feed the scheduler.

use rustbuster::classify::{classify, make_policy, RequestOutcome, ResponseInfo, StatusPolicy, Verdict};
use rustbuster::config::{ConfigError, HttpMethod, ScanConfig};
use rustbuster::executor::{execute_recorded, AttemptOutcome, RetryPolicy};
use rustbuster::scheduler::{ScanPhase, Scheduler};

fn config_for(base: &str, extensions: Vec<String>) -> ScanConfig {
    ScanConfig::new(
        base,
        HttpMethod::Get,
        extensions,
        false,
        vec![],
        None,
        false,
        false,
        RetryPolicy { enabled: false, attempts: 0 },
        None,
        None,
        2,
    )
    .unwrap()
}

/// Runs a whole scan against a scripted backend: a function from the request
/// URL to the attempts its candidate will see.
fn run_scan(
    config: &ScanConfig,
    wordlist: &[&str],
    backend: impl Fn(&str) -> Vec<AttemptOutcome>,
) -> (Scheduler, Vec<(String, Verdict)>) {
    let mut candidates = Vec::new();
    for line in wordlist {
        candidates.extend(config.resolve_line(line));
    }
    let mut sched = Scheduler::new(config.concurrency, candidates.len() as u64, 0);
    sched.start();
    let mut results = Vec::new();
    for c in &candidates {
        assert!(sched.can_dispatch());
        sched.dispatch();
        let url = c.url(&config.base);
        let outcome = match execute_recorded(&config.retry, backend(&url)) {
            Some((o, _used)) => o,
            None => panic!("the scripted backend ran out of attempts for {}", url),
        };
        let verdict = classify(&outcome, &config.policy);
        sched.record(verdict);
        results.push((url, verdict));
    }
    (sched, results)
}

fn respond(status: u16, url: &str) -> Vec<AttemptOutcome> {
    vec![AttemptOutcome::Response(ResponseInfo {
        status,
        url: url.to_string(),
        size: 10,
        latency_ms: 2,
    })]
}

#[test]
fn scenario_deny_404_finds_admin_and_filters_login() {
    let config = config_for("http://example.test", vec![]);
    let (sched, results) = run_scan(&config, &["admin", "login"], |url| {
        if url == "http://example.test/admin" {
            respond(200, url)
        } else {
            respond(404, url)
        }
    });
    assert_eq!(sched.phase, ScanPhase::Completed);
    assert_eq!(results.len(), 2);
    assert_eq!(
        results[0],
        ("http://example.test/admin".to_string(), Verdict::Found)
    );
    assert_eq!(
        results[1],
        ("http://example.test/login".to_string(), Verdict::Filtered)
    );
    assert_eq!(sched.progress.found, 1);
    assert_eq!(sched.progress.filtered, 1);
    assert_eq!(sched.progress.errored, 0);
}

#[test]
fn scenario_extensions_resolve_four_independent_candidates() {
    let config = config_for(
        "http://example.test",
        vec!["php".to_string(), "html".to_string()],
    );
    let (sched, results) = run_scan(&config, &["admin", "login"], |url| {
        if url == "http://example.test/admin.php" {
            respond(200, url)
        } else {
            respond(404, url)
        }
    });
    assert_eq!(sched.phase, ScanPhase::Completed);
    let urls: Vec<&str> = results.iter().map(|(u, _)| u.as_str()).collect();
    assert_eq!(
        urls,
        vec![
            "http://example.test/admin.php",
            "http://example.test/admin.html",
            "http://example.test/login.php",
            "http://example.test/login.html",
        ]
    );
    assert_eq!(sched.progress.found, 1);
    assert_eq!(sched.progress.filtered, 3);
}

#[test]
fn scenario_allow_list_filters_a_redirect() {
    let mut config = config_for("http://example.test", vec![]);
    config.policy = make_policy(Some(vec![200, 204]), None);
    let (sched, results) = run_scan(&config, &["moved"], |url| respond(301, url));
    assert_eq!(sched.phase, ScanPhase::Completed);
    assert_eq!(results[0].1, Verdict::Filtered);
}

#[test]
fn scenario_disabled_retry_times_out_after_one_attempt() {
    let config = config_for("http://example.test", vec![]);
    let mut attempts_offered = 0;
    let (sched, results) = {
        let backend = |_url: &str| {
            vec![
                AttemptOutcome::TimedOut,
                AttemptOutcome::TimedOut,
                AttemptOutcome::TimedOut,
            ]
        };
        let mut candidates = Vec::new();
        for line in ["slow"] {
            candidates.extend(config.resolve_line(line));
        }
        let mut sched = Scheduler::new(config.concurrency, candidates.len() as u64, 0);
        sched.start();
        let mut results = Vec::new();
        for c in &candidates {
            sched.dispatch();
            let url = c.url(&config.base);
            let (outcome, used) = execute_recorded(&config.retry, backend(&url)).unwrap();
            attempts_offered = used;
            let verdict = classify(&outcome, &config.policy);
            sched.record(verdict);
            results.push((url, verdict));
        }
        (sched, results)
    };
    assert_eq!(attempts_offered, 1);
    assert_eq!(results[0].1, Verdict::Error);
    assert_eq!(sched.phase, ScanPhase::Completed);
    assert_eq!(sched.progress.errored, 1);
}

#[test]
fn config_splits_the_base_url_into_its_components() {
    let c = config_for("http://example.test", vec![]);
    assert_eq!(c.base.scheme, "http");
    assert_eq!(c.base.host, "example.test");
    assert_eq!(c.base.port, None);
    assert_eq!(c.base.path, "/");
    let c2 = config_for("https://example.test:8443/api/v1", vec![]);
    assert_eq!(c2.base.scheme, "https");
    assert_eq!(c2.base.host, "example.test");
    assert_eq!(c2.base.port, Some(8443));
    assert_eq!(c2.base.path, "/api/v1");
}

#[test]
fn config_rejects_a_malformed_base_url() {
    let r = ScanConfig::new(
        "not a url",
        HttpMethod::Get,
        vec![],
        false,
        vec![],
        None,
        false,
        false,
        RetryPolicy { enabled: false, attempts: 0 },
        None,
        None,
        2,
    );
    assert_eq!(r.err().unwrap(), ConfigError::InvalidBaseUrl);
    let relative = ScanConfig::new(
        "/just/a/path",
        HttpMethod::Get,
        vec![],
        false,
        vec![],
        None,
        false,
        false,
        RetryPolicy { enabled: false, attempts: 0 },
        None,
        None,
        2,
    );
    assert_eq!(relative.err().unwrap(), ConfigError::InvalidBaseUrl);
}

#[test]
fn config_rejects_a_zero_concurrency_limit() {
    let r = ScanConfig::new(
        "http://example.test",
        HttpMethod::Get,
        vec![],
        false,
        vec![],
        None,
        false,
        false,
        RetryPolicy { enabled: false, attempts: 0 },
        None,
        None,
        0,
    );
    assert_eq!(r.err().unwrap(), ConfigError::InvalidConcurrency);
}

#[test]
fn config_builds_the_default_deny_policy() {
    let c = config_for("http://example.test", vec![]);
    match &c.policy {
        StatusPolicy::Deny(l) => assert_eq!(l, &vec![404u16]),
        StatusPolicy::Allow(_) => panic!("expected the default deny-list"),
    }
}

#[test]
fn method_names_round_trip() {
    for (m, name) in [
        (HttpMethod::Get, "GET"),
        (HttpMethod::Post, "POST"),
        (HttpMethod::Put, "PUT"),
        (HttpMethod::Delete, "DELETE"),
        (HttpMethod::Head, "HEAD"),
        (HttpMethod::Options, "OPTIONS"),
        (HttpMethod::Patch, "PATCH"),
        (HttpMethod::Trace, "TRACE"),
        (HttpMethod::Connect, "CONNECT"),
    ] {
        assert_eq!(m.name(), name);
        assert_eq!(HttpMethod::from_name(name), Some(m));
    }
    assert_eq!(HttpMethod::from_name("get"), None);
    assert_eq!(HttpMethod::from_name("FETCH"), None);
}
