use rustbuster::classify::Verdict;
use rustbuster::scheduler::{ScanPhase, Scheduler};

#[test]
fn dispatching_stops_at_the_concurrency_limit() {
    let mut s = Scheduler::new(3, 10, 0);
    s.start();
    assert_eq!(s.phase, ScanPhase::Running);
    let mut peak = 0u64;
    while s.can_dispatch() {
        s.dispatch();
        assert!(s.in_flight <= s.limit);
        peak = peak.max(s.in_flight);
    }
    assert_eq!(peak, 3);
    assert_eq!(s.in_flight, 3);
    // One result frees one slot, and only one.
    s.record(Verdict::Found);
    assert_eq!(s.in_flight, 2);
    assert!(s.can_dispatch());
    s.dispatch();
    assert_eq!(s.in_flight, 3);
    assert!(!s.can_dispatch());
}

#[test]
fn a_scan_completes_when_every_candidate_resolves() {
    let mut s = Scheduler::new(2, 3, 0);
    s.start();
    s.dispatch();
    s.dispatch();
    s.record(Verdict::Found);
    s.dispatch();
    s.record(Verdict::Filtered);
    assert_eq!(s.phase, ScanPhase::Running);
    s.record(Verdict::Error);
    assert_eq!(s.phase, ScanPhase::Completed);
    assert_eq!(s.progress.found, 1);
    assert_eq!(s.progress.filtered, 1);
    assert_eq!(s.progress.errored, 1);
    assert_eq!(s.attempted(), 3);
    assert_eq!(s.remaining(), 0);
    assert!(s.is_done());
}

#[test]
fn an_empty_scan_completes_on_start() {
    let mut s = Scheduler::new(1, 0, 0);
    s.start();
    assert_eq!(s.phase, ScanPhase::Completed);
}

#[test]
fn consecutive_errors_abort_at_the_threshold() {
    let mut s = Scheduler::new(1, 10, 3);
    s.start();
    s.dispatch();
    s.record(Verdict::Error);
    s.dispatch();
    s.record(Verdict::Error);
    // A success resets the run of errors.
    s.dispatch();
    s.record(Verdict::Found);
    assert_eq!(s.consecutive_errors, 0);
    s.dispatch();
    s.record(Verdict::Error);
    s.dispatch();
    s.record(Verdict::Error);
    assert_eq!(s.phase, ScanPhase::Running);
    s.dispatch();
    s.record(Verdict::Error);
    assert_eq!(s.phase, ScanPhase::Aborted);
    assert!(s.is_done());
}

#[test]
fn threshold_reached_on_the_final_candidate_still_aborts() {
    let mut s = Scheduler::new(1, 2, 2);
    s.start();
    s.dispatch();
    s.record(Verdict::Error);
    s.dispatch();
    s.record(Verdict::Error);
    assert_eq!(s.phase, ScanPhase::Aborted);
    assert_eq!(s.remaining(), 0);
}

#[test]
fn a_disabled_threshold_never_aborts() {
    let mut s = Scheduler::new(1, 4, 0);
    s.start();
    for _ in 0..4 {
        s.dispatch();
        s.record(Verdict::Error);
    }
    assert_eq!(s.phase, ScanPhase::Completed);
    assert_eq!(s.progress.errored, 4);
}

#[test]
fn cancellation_stops_dispatch_and_drains_to_aborted() {
    let mut s = Scheduler::new(2, 10, 0);
    s.start();
    s.dispatch();
    s.dispatch();
    s.cancel();
    assert!(!s.can_dispatch());
    assert_eq!(s.phase, ScanPhase::Running);
    s.record(Verdict::Found);
    assert_eq!(s.phase, ScanPhase::Running);
    s.record(Verdict::Filtered);
    assert_eq!(s.phase, ScanPhase::Aborted);
    assert_eq!(s.progress.found, 1);
    assert_eq!(s.progress.filtered, 1);
}

#[test]
fn abort_ends_the_scan_at_once() {
    let mut s = Scheduler::new(2, 10, 0);
    s.start();
    s.dispatch();
    s.abort();
    assert_eq!(s.phase, ScanPhase::Aborted);
    assert!(s.is_done());
}

#[test]
fn counters_partition_the_resolved_candidates() {
    let mut s = Scheduler::new(4, 6, 0);
    s.start();
    let verdicts = [
        Verdict::Found,
        Verdict::Error,
        Verdict::Filtered,
        Verdict::Found,
        Verdict::Error,
        Verdict::Filtered,
    ];
    for v in verdicts {
        s.dispatch();
        let before = s.progress;
        s.record(v);
        let after = s.progress;
        let grew = (after.found - before.found)
            + (after.filtered - before.filtered)
            + (after.errored - before.errored);
        assert_eq!(grew, 1);
    }
    assert_eq!(s.attempted(), 6);
    assert_eq!(s.progress.found, 2);
    assert_eq!(s.progress.filtered, 2);
    assert_eq!(s.progress.errored, 2);
    assert_eq!(s.progress.succeeded(), 4);
    assert_eq!(s.progress.failed(), 2);
    assert_eq!(s.phase, ScanPhase::Completed);
}
