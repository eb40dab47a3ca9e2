//! The bounded retry of the connection to the conductor's admin interface.
//! The interface is not ready the instant the conductor is spawned, so a
//! refused connection is tried again after a fixed delay, a bounded number
//! of times.

use vstd::prelude::*;
use crate::errors::LaunchHolochainError;

verus! {

/// How often a connection is attempted at most, and how long to wait
/// between two attempts.
#[derive(Debug, Clone, Copy, PartialEq, Eq)]
pub struct RetryPolicy {
    pub max_attempts: u32,
    pub delay_millis: u64,
}

impl RetryPolicy {
    /// A policy allows at least one attempt.
    pub open spec fn wf(&self) -> bool {
        self.max_attempts >= 1
    }

    /// The policy with the given bound and delay, or `None` where the
    /// bound allows no attempt at all.
    pub fn new(max_attempts: u32, delay_millis: u64) -> (r: Option<RetryPolicy>)
        ensures
            r is Some <==> max_attempts >= 1,
            r matches Some(p) ==> p.wf() && p.max_attempts == max_attempts && p.delay_millis
                == delay_millis,
    {
        if max_attempts >= 1 {
            Some(RetryPolicy { max_attempts, delay_millis })
        } else {
            None
        }
    }

    /// The policy of this deployment: three attempts, five seconds apart.
    pub fn reference() -> (p: RetryPolicy)
        ensures
            p.wf(),
            p.max_attempts == 3,
            p.delay_millis == 5000,
    {
        RetryPolicy { max_attempts: 3, delay_millis: 5000 }
    }
}

/// What to do after a connection attempt.
#[derive(Debug, Clone, PartialEq, Eq)]
pub enum RetryDecision {
    /// The connection stands.
    Connected,
    /// Wait this many milliseconds, then attempt again.
    RetryAfter(u64),
    /// Attempt no more; the launch fails with this error.
    GiveUp(LaunchHolochainError),
}

/// The state of the retry: the policy, and how many attempts have gone
/// out, the one in flight included.
#[derive(Debug, Clone, Copy, PartialEq, Eq)]
pub struct ConnectRetry {
    pub policy: RetryPolicy,
    pub attempts: u32,
}

/// Whether a refused attempt is followed by another one.
pub open spec fn tries_again(policy: RetryPolicy, attempts: u32) -> bool {
    attempts < policy.max_attempts
}

/// The number of attempts that have gone out at the end of a run that
/// stands at `attempts` and in which the attempts still to be answered
/// come out as `outcomes` says, `true` for a connection that stands. The
/// run ends with the first connection that stands, with a refusal that is
/// not followed by another attempt, or with the end of `outcomes`.
pub open spec fn attempts_at_end(policy: RetryPolicy, attempts: u32, outcomes: Seq<bool>) -> nat
    decreases outcomes.len(),
{
    if outcomes.len() == 0 || outcomes[0] || !tries_again(policy, attempts) {
        attempts as nat
    } else {
        attempts_at_end(policy, (attempts + 1) as u32, outcomes.drop_first())
    }
}

/// The time spent waiting between attempts in such a run, in milliseconds.
pub open spec fn delay_at_end(policy: RetryPolicy, attempts: u32, outcomes: Seq<bool>) -> nat
    decreases outcomes.len(),
{
    if outcomes.len() == 0 || outcomes[0] || !tries_again(policy, attempts) {
        0
    } else {
        policy.delay_millis as nat + delay_at_end(
            policy,
            (attempts + 1) as u32,
            outcomes.drop_first(),
        )
    }
}

impl ConnectRetry {
    /// The attempts that have gone out are at least one and within the
    /// policy's bound.
    pub open spec fn wf(&self) -> bool {
        self.policy.wf() && 1 <= self.attempts <= self.policy.max_attempts
    }

    /// The state in which the first attempt goes out, at once.
    pub fn start(policy: RetryPolicy) -> (r: ConnectRetry)
        ensures
            r.policy == policy,
            r.attempts == 1,
            policy.wf() ==> r.wf(),
    {
        ConnectRetry { policy, attempts: 1 }
    }

    /// Takes the outcome of the attempt in flight, `Err` with the reason
    /// for a refused one. A connection that stands ends the retry. A
    /// refusal is followed by another attempt, after the policy's delay,
    /// as long as the policy's bound allows one more; the refusal after
    /// that gives up with the reason of that last refusal.
    pub fn on_outcome(&mut self, outcome: Result<(), String>) -> (d: RetryDecision)
        ensures
            final(self).policy == old(self).policy,
            old(self).wf() ==> final(self).wf(),
            match outcome {
                Ok(_) => d is Connected && final(self).attempts == old(self).attempts,
                Err(reason) => if tries_again(old(self).policy, old(self).attempts) {
                    &&& d == RetryDecision::RetryAfter(old(self).policy.delay_millis)
                    &&& final(self).attempts == old(self).attempts + 1
                } else {
                    &&& d matches RetryDecision::GiveUp(
                        LaunchHolochainError::CouldNotConnectToConductor(m),
                    ) && m@ == reason@
                    &&& final(self).attempts == old(self).attempts
                },
            },
    {
        match outcome {
            Ok(_) => RetryDecision::Connected,
            Err(reason) => {
                if self.attempts < self.policy.max_attempts {
                    self.attempts = self.attempts + 1;
                    RetryDecision::RetryAfter(self.policy.delay_millis)
                } else {
                    RetryDecision::GiveUp(LaunchHolochainError::CouldNotConnectToConductor(reason))
                }
            },
        }
    }
}

/// However the attempts come out, no more of them go out than the policy
/// allows.
pub proof fn lemma_attempts_are_bounded(retry: ConnectRetry, outcomes: Seq<bool>)
    requires
        retry.wf(),
    ensures
        1 <= attempts_at_end(retry.policy, retry.attempts, outcomes) <= retry.policy.max_attempts,
    decreases outcomes.len(),
{
    if !(outcomes.len() == 0 || outcomes[0] || !tries_again(retry.policy, retry.attempts)) {
        let next = ConnectRetry { policy: retry.policy, attempts: (retry.attempts + 1) as u32 };
        lemma_attempts_are_bounded(next, outcomes.drop_first());
    }
}

/// Where the first attempt connects, it is the only one, and no time is
/// spent waiting.
pub proof fn lemma_first_success_is_immediate(policy: RetryPolicy, outcomes: Seq<bool>)
    requires
        outcomes.len() > 0,
        outcomes[0],
    ensures
        attempts_at_end(policy, 1, outcomes) == 1,
        delay_at_end(policy, 1, outcomes) == 0,
{
}

/// Where every attempt is refused, exactly as many go out as the policy
/// allows, with the policy's delay between each two.
pub proof fn lemma_all_refused(retry: ConnectRetry, outcomes: Seq<bool>)
    requires
        retry.wf(),
        outcomes.len() >= retry.policy.max_attempts - retry.attempts + 1,
        forall|i: int| 0 <= i < outcomes.len() ==> !outcomes[i],
    ensures
        attempts_at_end(retry.policy, retry.attempts, outcomes) == retry.policy.max_attempts,
        delay_at_end(retry.policy, retry.attempts, outcomes) == (retry.policy.max_attempts
            - retry.attempts) * retry.policy.delay_millis,
    decreases outcomes.len(),
{
    if tries_again(retry.policy, retry.attempts) {
        let next = ConnectRetry { policy: retry.policy, attempts: (retry.attempts + 1) as u32 };
        lemma_all_refused(next, outcomes.drop_first());
        assert((retry.policy.max_attempts - retry.attempts) * retry.policy.delay_millis
            == retry.policy.delay_millis + (retry.policy.max_attempts - next.attempts)
            * retry.policy.delay_millis) by (nonlinear_arith)
            requires
                next.attempts == retry.attempts + 1,
        ;
    } else {
        assert((retry.policy.max_attempts - retry.attempts) * retry.policy.delay_millis == 0)
            by (nonlinear_arith)
            requires
                retry.policy.max_attempts == retry.attempts,
        ;
    }
}

} // verus!
