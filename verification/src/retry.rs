//! The bounded retry-with-fixed-delay policy used for the transport calls and
//! the settings save. The policy is pure: the unverified shell performs the
//! attempts and the waiting, and asks the policy what to do after each failure.

use vstd::prelude::*;

verus! {

/// A bounded retry: at most `max_attempts` attempts in all, a fixed pause of
/// `delay_ms` milliseconds between two of them.
#[derive(Clone, Copy, Debug, PartialEq, Eq, Structural)]
pub struct RetryPolicy {
    pub max_attempts: u32,
    pub delay_ms: u64,
}

/// What to do once an attempt has failed.
#[derive(Clone, Copy, Debug, PartialEq, Eq, Structural)]
pub enum RetryDecision {
    /// Wait this many milliseconds, then try again.
    RetryAfterMs(u64),
    /// Every allowed attempt has been spent; surface the failure.
    GiveUp,
}

impl RetryPolicy {
    /// The transport policy: three attempts in all, half a second apart.
    pub fn transport() -> (r: Self)
        ensures
            r == (RetryPolicy { max_attempts: 3, delay_ms: 500 }),
    {
        RetryPolicy { max_attempts: 3, delay_ms: 500 }
    }

    /// The settings-save policy: two attempts, back to back.
    pub fn settings_save() -> (r: Self)
        ensures
            r == (RetryPolicy { max_attempts: 2, delay_ms: 0 }),
    {
        RetryPolicy { max_attempts: 2, delay_ms: 0 }
    }

    /// After `attempts_made` attempts have all failed: retry after the fixed
    /// delay while attempts remain, give up otherwise.
    pub fn after_failure(&self, attempts_made: u32) -> (r: RetryDecision)
        ensures
            r == if attempts_made < self.max_attempts {
                RetryDecision::RetryAfterMs(self.delay_ms)
            } else {
                RetryDecision::GiveUp
            },
    {
        if attempts_made < self.max_attempts {
            RetryDecision::RetryAfterMs(self.delay_ms)
        } else {
            RetryDecision::GiveUp
        }
    }

    /// Replays the policy against a pre-recorded sequence of attempt outcomes
    /// (`true` is success): returns the first attempt that succeeds, provided it
    /// falls within the allowed attempts, and `None` when every allowed attempt
    /// fails.
    pub fn first_successful_attempt(&self, outcomes: &Vec<bool>) -> (r: Option<usize>)
        ensures
            match r {
                Some(i) => i < self.max_attempts && i < outcomes@.len() && outcomes@[i as int]
                    && forall|j: int| 0 <= j < i ==> !outcomes@[j],
                None => forall|j: int|
                    0 <= j < self.max_attempts && j < outcomes@.len() ==> !outcomes@[j],
            },
    {
        let mut i: usize = 0;
        while i < outcomes.len() && i < self.max_attempts as usize
            invariant
                i <= outcomes@.len(),
                forall|j: int| 0 <= j < i ==> !outcomes@[j],
            decreases outcomes@.len() - i,
        {
            if outcomes[i] {
                return Some(i);
            }
            i = i + 1;
        }
        None
    }
}

} // verus!
