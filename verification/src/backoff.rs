//! Per-worker failure backoff: a growing pause once a worker has failed
//! many times in a row, so that one worker does not hammer a remote
//! service that is unwell.

use vstd::prelude::*;

verus! {

/// The three numbers that shape a backoff.
#[derive(Clone, Copy, Debug, PartialEq, Eq, Structural)]
pub struct BackoffPolicy {
    /// Pause per consecutive failure, in milliseconds.
    pub base_ms: u64,
    /// Longest pause, in milliseconds.
    pub max_ms: u64,
    /// Number of consecutive failures from which a pause is taken.
    pub threshold: u32,
}

#[derive(Clone, Copy, Debug)]
pub struct FailureBackoff {
    policy: BackoffPolicy,
    consecutive: u32,
}

/// The pause after the `count`-th consecutive failure, in milliseconds.
pub open spec fn backoff_delay(policy: BackoffPolicy, count: nat) -> nat {
    if count >= policy.threshold {
        if policy.base_ms * count <= policy.max_ms {
            (policy.base_ms * count) as nat
        } else {
            policy.max_ms as nat
        }
    } else {
        0
    }
}

impl BackoffPolicy {
    /// 500 ms per failure, at most 5 s, from the tenth failure in a row.
    pub fn standard() -> (p: Self)
        ensures
            p == (BackoffPolicy { base_ms: 500, max_ms: 5000, threshold: 10 }),
    {
        BackoffPolicy { base_ms: 500, max_ms: 5000, threshold: 10 }
    }

    /// The pause after the `count`-th consecutive failure.
    pub fn delay_ms(&self, count: u32) -> (pause: u64)
        ensures
            pause == backoff_delay(*self, count as nat),
    {
        if count < self.threshold {
            return 0;
        }
        assert(self.base_ms * count <= 0xffff_ffff_ffff_ffff * 0xffff_ffff) by (nonlinear_arith)
            requires
                self.base_ms <= 0xffff_ffff_ffff_ffff,
                count <= 0xffff_ffff,
        ;
        let grown: u128 = (self.base_ms as u128) * (count as u128);
        if grown <= self.max_ms as u128 {
            grown as u64
        } else {
            self.max_ms
        }
    }
}

impl FailureBackoff {
    pub closed spec fn policy(&self) -> BackoffPolicy {
        self.policy
    }

    /// Failures since the last success.
    pub closed spec fn failures(&self) -> nat {
        self.consecutive as nat
    }

    pub fn new(policy: BackoffPolicy) -> (b: Self)
        ensures
            b.policy() == policy,
            b.failures() == 0,
    {
        FailureBackoff { policy, consecutive: 0 }
    }

    pub fn consecutive_failures(&self) -> (n: u32)
        ensures
            n == self.failures(),
    {
        self.consecutive
    }

    /// Whether one more failure can be counted.
    pub fn can_count(&self) -> (b: bool)
        ensures
            b == (self.failures() < u32::MAX),
    {
        self.consecutive < u32::MAX
    }

    /// A success ends the run of failures.
    pub fn on_success(&mut self)
        ensures
            final(self).policy() == old(self).policy(),
            final(self).failures() == 0,
    {
        self.consecutive = 0;
    }

    /// A failure lengthens the run by one; the result is the pause to
    /// take before the next operation, in milliseconds.
    pub fn on_failure(&mut self) -> (pause: u64)
        requires
            old(self).failures() < u32::MAX,
        ensures
            final(self).policy() == old(self).policy(),
            final(self).failures() == old(self).failures() + 1,
            pause == backoff_delay(old(self).policy(), old(self).failures() + 1),
    {
        self.consecutive = self.consecutive + 1;
        self.policy.delay_ms(self.consecutive)
    }
}

/// Under the standard policy no pause is taken before the tenth failure
/// in a row, and from there the pause is the smaller of 500 ms per
/// failure and 5 s.
pub proof fn lemma_standard_delay(count: nat)
    ensures
        count < 10 ==> backoff_delay(
            BackoffPolicy { base_ms: 500, max_ms: 5000, threshold: 10 },
            count,
        ) == 0,
        count >= 10 ==> backoff_delay(
            BackoffPolicy { base_ms: 500, max_ms: 5000, threshold: 10 },
            count,
        ) == (if 500 * count <= 5000 {
            500 * count
        } else {
            5000
        }),
{
}

/// A longer run of failures never shortens the pause, and no pause
/// exceeds the policy's longest.
pub proof fn lemma_delay_monotone(policy: BackoffPolicy, fewer: nat, more: nat)
    requires
        fewer <= more,
    ensures
        backoff_delay(policy, fewer) <= backoff_delay(policy, more),
        backoff_delay(policy, more) <= policy.max_ms,
{
    assert(policy.base_ms * fewer <= policy.base_ms * more) by (nonlinear_arith)
        requires
            fewer <= more,
            policy.base_ms >= 0,
    ;
}

} // verus!
