//! The enumeration scheduler: the concurrency core of a scan.
//!
//! A scan moves through `Idle -> Running -> {Completed, Aborted}`. Workers
//! take candidates while the bound on simultaneous requests allows, and hand
//! back one verdict per dispatched candidate; the scheduler keeps the
//! progress counters and decides when the scan ends. The workers themselves —
//! tasks awaiting network I/O — live in the surrounding application; every
//! decision they act on is made here.

use vstd::prelude::*;
use crate::classify::Verdict;

verus! {

/// The phase of a scan.
#[derive(Clone, Copy, PartialEq, Eq, Structural, Debug)]
pub enum ScanPhase {
    /// Created, not yet started.
    Idle,
    /// Candidates are being dispatched and resolved.
    Running,
    /// Every candidate was dispatched and resolved, none fatally.
    Completed,
    /// The scan ended early: a fatal condition, or cancellation.
    Aborted,
}

/// The process-wide progress counters of one scan. Every resolved candidate
/// contributes exactly once, to exactly one of the three verdict counters.
#[derive(Clone, Copy, PartialEq, Eq, Structural, Debug)]
pub struct ScanProgress {
    /// Candidates classified as found.
    pub found: u64,
    /// Candidates classified as filtered.
    pub filtered: u64,
    /// Candidates that ended in a terminal failure.
    pub errored: u64,
}

impl ScanProgress {
    /// How many candidates have been attempted and resolved, whatever the
    /// verdict.
    pub open spec fn spec_attempted(&self) -> int {
        self.found + self.filtered + self.errored
    }

    /// Candidates that yielded a response: found or filtered.
    pub open spec fn spec_succeeded(&self) -> int {
        self.found + self.filtered
    }

    /// How many candidates yielded a response, whatever the verdict.
    pub fn succeeded(&self) -> (n: u64)
        requires
            self.spec_succeeded() <= u64::MAX,
        ensures
            n == self.spec_succeeded(),
    {
        self.found + self.filtered
    }

    /// How many candidates ended in a terminal failure.
    pub fn failed(&self) -> (n: u64)
        ensures
            n == self.errored,
    {
        self.errored
    }
}

/// The scheduler of one scan. It never touches the network: the application
/// asks `can_dispatch` before handing a candidate to a worker, reports every
/// resolved candidate through `record`, and reads the phase to learn when the
/// scan is over.
pub struct Scheduler {
    /// The phase the scan is in.
    pub phase: ScanPhase,
    /// The bound on simultaneously executing requests; at least 1.
    pub limit: u64,
    /// How many candidates the whole scan will dispatch.
    pub total: u64,
    /// Candidates handed to workers so far.
    pub dispatched: u64,
    /// Candidates handed to workers and not yet resolved.
    pub in_flight: u64,
    /// The progress counters.
    pub progress: ScanProgress,
    /// Verdict-`Error` results seen in a row, with no other verdict between.
    pub consecutive_errors: u64,
    /// Abort the scan when `consecutive_errors` reaches this; 0 disables the
    /// threshold.
    pub error_threshold: u64,
    /// Whether cancellation was requested: no further candidate is
    /// dispatched, and the scan ends as `Aborted` once nothing is in flight.
    pub cancelled: bool,
}

impl Scheduler {
    /// Well-formedness of a scheduler: the concurrency bound holds, the
    /// counters are consistent, and an idle scan has done nothing yet.
    pub open spec fn wf(&self) -> bool {
        &&& self.limit >= 1
        &&& self.in_flight <= self.limit
        &&& self.in_flight <= self.dispatched
        &&& self.dispatched <= self.total
        &&& self.progress.spec_attempted() + self.in_flight == self.dispatched
        &&& self.consecutive_errors <= self.progress.errored
        &&& self.phase is Idle ==> self.dispatched == 0 && !self.cancelled
        &&& self.phase is Completed ==> self.dispatched == self.total && self.in_flight == 0
    }

    /// A fresh scheduler for a scan of `total` candidates under the given
    /// concurrency limit and consecutive-error threshold (0 disables the
    /// threshold).
    pub fn new(limit: u64, total: u64, error_threshold: u64) -> (s: Scheduler)
        requires
            limit >= 1,
        ensures
            s.wf(),
            s.phase is Idle,
            s.limit == limit,
            s.total == total,
            s.error_threshold == error_threshold,
            s.dispatched == 0,
            s.in_flight == 0,
            s.progress == (ScanProgress { found: 0, filtered: 0, errored: 0 }),
            s.consecutive_errors == 0,
            !s.cancelled,
    {
        Scheduler {
            phase: ScanPhase::Idle,
            limit,
            total,
            dispatched: 0,
            in_flight: 0,
            progress: ScanProgress { found: 0, filtered: 0, errored: 0 },
            consecutive_errors: 0,
            error_threshold,
            cancelled: false,
        }
    }

    /// Starts the scan. A scan of no candidates completes at once.
    pub fn start(&mut self)
        requires
            old(self).wf(),
            old(self).phase is Idle,
        ensures
            final(self).wf(),
            final(self).phase == if old(self).total == 0 {
                ScanPhase::Completed
            } else {
                ScanPhase::Running
            },
            *final(self) == (Scheduler { phase: final(self).phase, ..*old(self) }),
    {
        if self.total == 0 {
            self.phase = ScanPhase::Completed;
        } else {
            self.phase = ScanPhase::Running;
        }
    }

    /// Whether a worker may take one more candidate now: the scan is running
    /// and not cancelled, candidates remain, and one more request stays under
    /// the concurrency limit.
    pub fn can_dispatch(&self) -> (r: bool)
        ensures
            r == (self.phase is Running && !self.cancelled && self.in_flight < self.limit
                && self.dispatched < self.total),
    {
        match self.phase {
            ScanPhase::Running => !self.cancelled && self.in_flight < self.limit
                && self.dispatched < self.total,
            _ => false,
        }
    }

    /// Hands one candidate to a worker. The concurrency bound is preserved:
    /// dispatching is only allowed while the in-flight count is strictly
    /// under the limit.
    pub fn dispatch(&mut self)
        requires
            old(self).wf(),
            old(self).phase is Running,
            !old(self).cancelled,
            old(self).in_flight < old(self).limit,
            old(self).dispatched < old(self).total,
        ensures
            final(self).wf(),
            final(self).dispatched == old(self).dispatched + 1,
            final(self).in_flight == old(self).in_flight + 1,
            *final(self) == (Scheduler {
                dispatched: final(self).dispatched,
                in_flight: final(self).in_flight,
                ..*old(self)
            }),
    {
        self.dispatched = self.dispatched + 1;
        self.in_flight = self.in_flight + 1;
    }

    /// The progress counters after `v` is folded into `p`: exactly one
    /// counter grows, by exactly one.
    pub open spec fn spec_progress_after(p: ScanProgress, v: Verdict) -> ScanProgress {
        match v {
            Verdict::Found => ScanProgress { found: (p.found + 1) as u64, ..p },
            Verdict::Filtered => ScanProgress { filtered: (p.filtered + 1) as u64, ..p },
            Verdict::Error => ScanProgress { errored: (p.errored + 1) as u64, ..p },
        }
    }

    /// The consecutive-error count after verdict `v`: an error lengthens the
    /// run, anything else ends it.
    pub open spec fn spec_consecutive_after(s: Scheduler, v: Verdict) -> int {
        if v is Error {
            s.consecutive_errors + 1
        } else {
            0
        }
    }

    /// The phase after one verdict is recorded on `s`: aborted when the
    /// consecutive-error threshold is enabled and reached; completed when the
    /// last candidate has resolved; aborted when cancelled and nothing is
    /// left in flight; otherwise still running.
    pub open spec fn spec_phase_after(s: Scheduler, v: Verdict) -> ScanPhase {
        if s.error_threshold > 0 && Self::spec_consecutive_after(s, v) >= s.error_threshold {
            ScanPhase::Aborted
        } else if Self::spec_progress_after(s.progress, v).spec_attempted() == s.total {
            ScanPhase::Completed
        } else if s.cancelled && s.in_flight == 1 {
            ScanPhase::Aborted
        } else {
            ScanPhase::Running
        }
    }

    /// Records the verdict of one resolved candidate: the candidate leaves
    /// the in-flight set, exactly one progress counter grows by one, the
    /// consecutive-error run is updated, and the scan ends when this was the
    /// last candidate, when the error threshold is reached, or when a
    /// cancelled scan drains.
    pub fn record(&mut self, v: Verdict)
        requires
            old(self).wf(),
            old(self).phase is Running,
            old(self).in_flight >= 1,
        ensures
            final(self).wf(),
            final(self).in_flight == old(self).in_flight - 1,
            final(self).progress == Self::spec_progress_after(old(self).progress, v),
            final(self).consecutive_errors == Self::spec_consecutive_after(*old(self), v),
            final(self).phase == Self::spec_phase_after(*old(self), v),
            *final(self) == (Scheduler {
                phase: final(self).phase,
                in_flight: final(self).in_flight,
                progress: final(self).progress,
                consecutive_errors: final(self).consecutive_errors,
                ..*old(self)
            }),
    {
        proof {
            assert(old(self).progress.spec_attempted() < old(self).total);
        }
        self.in_flight = self.in_flight - 1;
        match v {
            Verdict::Found => {
                self.progress.found = self.progress.found + 1;
                self.consecutive_errors = 0;
            },
            Verdict::Filtered => {
                self.progress.filtered = self.progress.filtered + 1;
                self.consecutive_errors = 0;
            },
            Verdict::Error => {
                self.progress.errored = self.progress.errored + 1;
                self.consecutive_errors = self.consecutive_errors + 1;
            },
        }
        if self.error_threshold > 0 && self.consecutive_errors >= self.error_threshold {
            self.phase = ScanPhase::Aborted;
        } else if self.progress.found + self.progress.filtered + self.progress.errored
            == self.total {
            self.phase = ScanPhase::Completed;
        } else if self.cancelled && self.in_flight == 0 {
            self.phase = ScanPhase::Aborted;
        }
    }

    /// Requests cancellation: nothing further is dispatched, in-flight
    /// requests may still resolve, and a scan with nothing in flight ends as
    /// aborted at once.
    pub fn cancel(&mut self)
        requires
            old(self).wf(),
        ensures
            final(self).wf(),
            final(self).cancelled,
            final(self).phase == if (old(self).phase is Running && old(self).in_flight == 0)
                || old(self).phase is Idle {
                ScanPhase::Aborted
            } else {
                old(self).phase
            },
            *final(self) == (Scheduler {
                phase: final(self).phase,
                cancelled: true,
                ..*old(self)
            }),
    {
        self.cancelled = true;
        match self.phase {
            ScanPhase::Running => {
                if self.in_flight == 0 {
                    self.phase = ScanPhase::Aborted;
                }
            },
            ScanPhase::Idle => {
                self.phase = ScanPhase::Aborted;
            },
            _ => {},
        }
    }

    /// Aborts the scan at once: for fatal conditions that make every further
    /// candidate pointless, such as an unreachable host discovered at scan
    /// level.
    pub fn abort(&mut self)
        requires
            old(self).wf(),
        ensures
            final(self).wf(),
            final(self).phase is Aborted,
            *final(self) == (Scheduler { phase: ScanPhase::Aborted, ..*old(self) }),
    {
        self.phase = ScanPhase::Aborted;
    }

    /// A snapshot of the progress counters.
    pub fn snapshot(&self) -> (p: ScanProgress)
        ensures
            p == self.progress,
    {
        self.progress
    }

    /// How many candidates have been attempted and resolved.
    pub fn attempted(&self) -> (n: u64)
        requires
            self.wf(),
        ensures
            n == self.progress.spec_attempted(),
    {
        self.progress.found + self.progress.filtered + self.progress.errored
    }

    /// How many candidates are still to resolve.
    pub fn remaining(&self) -> (n: u64)
        requires
            self.wf(),
        ensures
            n == self.total - self.progress.spec_attempted(),
    {
        self.total - self.attempted()
    }

    /// Whether the scan has ended, successfully or not.
    pub fn is_done(&self) -> (r: bool)
        ensures
            r == (self.phase is Completed || self.phase is Aborted),
    {
        match self.phase {
            ScanPhase::Completed => true,
            ScanPhase::Aborted => true,
            _ => false,
        }
    }
}

/// Concurrency bound: at no point does a well-formed scan have more than its
/// configured limit of requests in flight. Every scheduler operation
/// preserves well-formedness, so the bound holds throughout a scan.
pub proof fn lemma_concurrency_bound(s: Scheduler)
    requires
        s.wf(),
    ensures
        s.in_flight <= s.limit,
{
}

/// The progress counters partition the resolved candidates: each resolved
/// candidate sits in exactly one verdict bucket, so the buckets sum to the
/// attempted count, and together with the in-flight count they account for
/// every dispatched candidate.
pub proof fn lemma_progress_partition(s: Scheduler)
    requires
        s.wf(),
    ensures
        s.progress.spec_attempted() == s.progress.found + s.progress.filtered + s.progress.errored,
        s.progress.spec_attempted() + s.in_flight == s.dispatched,
{
}

} // verus!
