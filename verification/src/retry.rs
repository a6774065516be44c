use vstd::prelude::*;

verus! {

/// The retry policy shared by every stage: an attempt may be retried while
/// the number of failures so far stays within the configured bound, and a
/// negative bound means the policy never gives up.
pub open spec fn spec_should_retry(attempt: u32, bound: i32) -> bool {
    bound < 0 || attempt <= bound
}

/// Decides whether a failed operation should be retried. `attempt` counts the
/// failures so far, the current one included; `bound` is the configured retry
/// bound, where a negative bound allows unlimited retries.
pub fn should_retry(attempt: u32, bound: i32) -> (r: bool)
    ensures
        r == spec_should_retry(attempt, bound),
{
    bound < 0 || (attempt as i64) <= (bound as i64)
}

/// The retry policy in full: with a non-negative bound, retrying is allowed
/// exactly while the failure count stays within the bound; with a negative
/// bound it is always allowed.
pub proof fn lemma_retry_policy(attempt: u32, bound: i32)
    ensures
        bound >= 0 && attempt <= bound ==> spec_should_retry(attempt, bound),
        bound >= 0 && attempt > bound ==> !spec_should_retry(attempt, bound),
        bound < 0 ==> spec_should_retry(attempt, bound),
{
}

/// A failure counter one higher, stopping at the largest representable
/// count.
pub open spec fn bump(count: u32) -> u32 {
    if count == u32::MAX {
        count
    } else {
        (count + 1) as u32
    }
}

/// What the owner of a retried operation is told to do next: the attempt
/// succeeded; or it failed and should be retried after the configured delay;
/// or the bound is exhausted and giving up is fatal to the whole process; or
/// the bound is exhausted and the stage merely keeps its previous state.
#[derive(Debug, Clone, Copy, PartialEq, Eq, Structural)]
pub enum AttemptDecision {
    Succeeded,
    RetryAfter { delay_seconds: u64 },
    FatalGiveUp,
    SoftGiveUp,
}

} // verus!
