use vstd::prelude::*;

verus! {

/// How failed attempts are handled: `None` runs once, `Some(ms)` waits that
/// many milliseconds after each failure and tries again, with no cap.
#[derive(Debug, Clone, Copy, PartialEq, Eq, Structural)]
pub struct ReconnectPolicy {
    pub interval_millis: Option<u64>,
}

/// How one attempt of an executor ended.
#[derive(Debug, Clone, Copy, PartialEq, Eq, Structural)]
pub enum AttemptOutcome {
    Succeeded,
    Failed,
}

/// What the driver does once an attempt has ended.
#[derive(Debug, Clone, Copy, PartialEq, Eq, Structural)]
pub enum DriverStep {
    /// The whole operation ends with success.
    Finish,
    /// Sleep for the given time, then run a fresh attempt.
    Retry { delay_millis: u64 },
}

/// The driver's decision on an ended attempt.
#[derive(Debug, Clone, Copy, PartialEq, Eq, Structural)]
pub struct AttemptReport {
    /// The attempt failed and its error is written to the log.
    pub log_failure: bool,
    pub step: DriverStep,
}

pub open spec fn report_of(policy: ReconnectPolicy, outcome: AttemptOutcome) -> AttemptReport {
    match outcome {
        AttemptOutcome::Succeeded => AttemptReport { log_failure: false, step: DriverStep::Finish },
        AttemptOutcome::Failed => match policy.interval_millis {
            None => AttemptReport { log_failure: true, step: DriverStep::Finish },
            Some(d) => AttemptReport { log_failure: true, step: DriverStep::Retry { delay_millis: d } },
        },
    }
}

impl ReconnectPolicy {
    pub fn once() -> (r: ReconnectPolicy)
        ensures
            r.interval_millis is None,
    {
        ReconnectPolicy { interval_millis: None }
    }

    pub fn every(interval_millis: u64) -> (r: ReconnectPolicy)
        ensures
            r.interval_millis == Some(interval_millis),
    {
        ReconnectPolicy { interval_millis: Some(interval_millis) }
    }

    /// Decides what follows an attempt: success ends the operation; a failure is
    /// logged and, under an interval, retried after sleeping for it; without an
    /// interval the operation ends with success all the same.
    pub fn after_attempt(&self, outcome: AttemptOutcome) -> (r: AttemptReport)
        ensures
            r == report_of(*self, outcome),
    {
        match outcome {
            AttemptOutcome::Succeeded => AttemptReport { log_failure: false, step: DriverStep::Finish },
            AttemptOutcome::Failed => match self.interval_millis {
                None => AttemptReport { log_failure: true, step: DriverStep::Finish },
                Some(d) => AttemptReport {
                    log_failure: true,
                    step: DriverStep::Retry { delay_millis: d },
                },
            },
        }
    }
}

/// What a run of the driver has done so far.
pub struct RunSummary {
    pub attempts: nat,
    pub logged_failures: nat,
    pub sleeps: nat,
    pub finished: bool,
}

/// The run of the driver over the outcomes of its successive attempts, as far
/// as they go or until the driver finishes; outcomes after that are not reached.
/// Each attempt after the first is preceded by one sleep.
pub open spec fn run_of(policy: ReconnectPolicy, outcomes: Seq<AttemptOutcome>) -> RunSummary
    decreases outcomes.len(),
{
    if outcomes.len() == 0 {
        RunSummary { attempts: 0, logged_failures: 0, sleeps: 0, finished: false }
    } else {
        let prev = run_of(policy, outcomes.drop_last());
        if prev.finished {
            prev
        } else {
            let rep = report_of(policy, outcomes.last());
            RunSummary {
                attempts: prev.attempts + 1,
                logged_failures: prev.logged_failures + if rep.log_failure { 1nat } else { 0nat },
                sleeps: prev.sleeps + if prev.attempts > 0 { 1nat } else { 0nat },
                finished: rep.step is Finish,
            }
        }
    }
}

/// Without an interval the driver makes exactly one attempt and never sleeps,
/// whatever the outcomes; a failing attempt is logged once and the run still
/// ends with success.
pub proof fn lemma_single_attempt_without_interval(
    policy: ReconnectPolicy,
    outcomes: Seq<AttemptOutcome>,
)
    requires
        policy.interval_millis is None,
        outcomes.len() >= 1,
    ensures
        run_of(policy, outcomes).attempts == 1,
        run_of(policy, outcomes).sleeps == 0,
        run_of(policy, outcomes).finished,
        run_of(policy, outcomes).logged_failures == if outcomes[0] == AttemptOutcome::Failed {
            1nat
        } else {
            0nat
        },
        report_of(policy, outcomes[0]).step == DriverStep::Finish,
    decreases outcomes.len(),
{
    if outcomes.len() > 1 {
        lemma_single_attempt_without_interval(policy, outcomes.drop_last());
        assert(outcomes.drop_last()[0] == outcomes[0]);
    } else {
        assert(outcomes.drop_last().len() == 0);
        reveal_with_fuel(run_of, 2);
    }
}

/// The outcomes of `n` attempts that all fail.
pub open spec fn failing_attempts(n: nat) -> Seq<AttemptOutcome> {
    Seq::new(n, |i: int| AttemptOutcome::Failed)
}

/// Under an interval, n consecutive failing attempts are n logged failures
/// separated by n - 1 sleeps, each of exactly that interval, and the driver
/// never gives up on its own.
pub proof fn lemma_failures_retry_after_interval(policy: ReconnectPolicy, n: nat)
    requires
        policy.interval_millis is Some,
        n >= 1,
    ensures
        run_of(policy, failing_attempts(n)).attempts == n,
        run_of(policy, failing_attempts(n)).logged_failures == n,
        run_of(policy, failing_attempts(n)).sleeps == n - 1,
        !run_of(policy, failing_attempts(n)).finished,
        report_of(policy, AttemptOutcome::Failed).step == (DriverStep::Retry {
            delay_millis: policy.interval_millis->Some_0,
        }),
    decreases n,
{
    let s = failing_attempts(n);
    assert(s.last() == AttemptOutcome::Failed);
    if n > 1 {
        lemma_failures_retry_after_interval(policy, (n - 1) as nat);
        assert(s.drop_last() =~= failing_attempts((n - 1) as nat));
    } else {
        assert(s.drop_last().len() == 0);
        reveal_with_fuel(run_of, 2);
    }
}

} // verus!
