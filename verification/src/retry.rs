use vstd::prelude::*;

verus! {

/// Maximum number of times a startup job's command is attempted.
pub const MAX_ATTEMPTS: u32 = 5;

/// Fixed delay, in milliseconds, between consecutive failed startup attempts.
pub const RETRY_DELAY_MS: u64 = 2000;

/// What the retry policy asks for after a failed attempt.
#[derive(Clone, Copy, PartialEq, Eq, Structural, Debug)]
pub enum RetryDecision {
    /// Wait the given number of milliseconds, then attempt again.
    RetryAfterDelay(u64),
    /// The attempt budget is exhausted: log a terminal failure and stop.
    GiveUp,
}

/// Attempt bookkeeping for one startup run of one job. Discarded as soon as
/// the job succeeds or the budget is exhausted.
pub struct RetryState {
    pub failures: u32,
}

impl RetryState {
    pub open spec fn wf(self) -> bool {
        self.failures <= MAX_ATTEMPTS
    }

    pub fn new() -> (s: Self)
        ensures
            s.failures == 0,
            s.wf(),
    {
        RetryState { failures: 0 }
    }

    /// Record one failed attempt. The policy gives up exactly when the fixed
    /// budget is spent; every earlier failure asks for another attempt after
    /// the same fixed delay — no jitter, no backoff.
    pub fn on_failure(&mut self) -> (d: RetryDecision)
        requires
            old(self).failures < MAX_ATTEMPTS,
        ensures
            final(self).failures == old(self).failures + 1,
            final(self).wf(),
            d == (if final(self).failures == MAX_ATTEMPTS {
                RetryDecision::GiveUp
            } else {
                RetryDecision::RetryAfterDelay(RETRY_DELAY_MS)
            }),
    {
        self.failures = self.failures + 1;
        if self.failures == MAX_ATTEMPTS {
            RetryDecision::GiveUp
        } else {
            RetryDecision::RetryAfterDelay(RETRY_DELAY_MS)
        }
    }
}

/// Attempts a single run of a job may use: startup runs are retried up to the
/// fixed budget, scheduled firings run the command exactly once.
pub open spec fn budget_for(startup: bool) -> nat {
    if startup {
        MAX_ATTEMPTS as nat
    } else {
        1nat
    }
}

/// How many times the retry policy invokes the engine for one startup run,
/// when attempt `i` would succeed exactly if `results[i]` holds.
///
/// At most the fixed budget is spent, every attempt before the last one
/// failed, and the run stops either on the first success or with the budget
/// exhausted — so a first success at position `i` costs exactly `i + 1`
/// invocations.
pub fn retry_invocations(results: &Vec<bool>) -> (n: usize)
    requires
        results@.len() >= MAX_ATTEMPTS,
    ensures
        1 <= n <= MAX_ATTEMPTS,
        forall|i: int| 0 <= i < n - 1 ==> !results@[i],
        results@[n - 1] || n == MAX_ATTEMPTS,
{
    let mut st = RetryState::new();
    let mut n: usize = 0;
    loop
        invariant
            st.wf(),
            st.failures < MAX_ATTEMPTS,
            n == st.failures,
            results@.len() >= MAX_ATTEMPTS,
            forall|i: int| 0 <= i < n ==> !results@[i],
        decreases MAX_ATTEMPTS - st.failures,
    {
        let success = results[n];
        n = n + 1;
        if success {
            return n;
        }
        match st.on_failure() {
            RetryDecision::GiveUp => {
                return n;
            },
            RetryDecision::RetryAfterDelay(_delay) => {},
        }
    }
}

/// Engine invocations for one run of a job on either path: a scheduled
/// firing invokes the engine exactly once, never retrying, whatever the
/// outcome; a startup run follows the retry policy.
pub fn run_invocations(startup: bool, results: &Vec<bool>) -> (n: usize)
    requires
        results@.len() >= MAX_ATTEMPTS,
    ensures
        1 <= n <= budget_for(startup),
        !startup ==> n == 1,
        forall|i: int| 0 <= i < n - 1 ==> !results@[i],
        results@[n - 1] || n == budget_for(startup),
{
    if startup {
        retry_invocations(results)
    } else {
        let _outcome = results[0];
        1
    }
}

} // verus!
