use vstd::prelude::*;

verus! {

/// What follows one attempt of a retried check.
#[derive(PartialEq, Eq, Structural, Clone, Copy, Debug)]
pub enum RetryDecision {
    /// The check passed: stop with success.
    Done,
    /// The check failed and attempts are left: yield, then try again.
    Again,
    /// The check failed on the last attempt of the budget.
    Exhausted,
}

/// Counter of attempts of one retried check, against a budget set by the caller.
#[derive(PartialEq, Eq, Structural, Clone, Copy, Debug)]
pub struct Retry {
    pub attempts: usize,
    pub budget: usize,
}

/// The decision after attempt number `attempts` (counted from zero) with result `ok`.
pub open spec fn decide(attempts: int, budget: int, ok: bool) -> RetryDecision {
    if ok {
        RetryDecision::Done
    } else if attempts + 1 < budget {
        RetryDecision::Again
    } else {
        RetryDecision::Exhausted
    }
}

impl Retry {
    /// A counter with no attempt made yet.
    pub fn new(budget: usize) -> (r: Retry)
        ensures
            r.attempts == 0,
            r.budget == budget,
    {
        Retry { attempts: 0, budget }
    }

    /// Whether another attempt may be made.
    pub fn can_attempt(&self) -> (r: bool)
        ensures
            r == (self.attempts < self.budget),
    {
        self.attempts < self.budget
    }

    /// Records the result of an attempt and says what follows.
    pub fn record(&mut self, ok: bool) -> (d: RetryDecision)
        requires
            old(self).attempts < old(self).budget,
        ensures
            d == decide(old(self).attempts as int, old(self).budget as int, ok),
            final(self).attempts == old(self).attempts + 1,
            final(self).budget == old(self).budget,
    {
        self.attempts = self.attempts + 1;
        if ok {
            RetryDecision::Done
        } else if self.attempts < self.budget {
            RetryDecision::Again
        } else {
            RetryDecision::Exhausted
        }
    }
}

/// A check that first passes on attempt `k`, within the budget, makes the
/// retry go on through the earlier attempts and succeed on attempt `k`.
pub proof fn lemma_retry_succeeds_on_first_pass(checks: Seq<bool>, budget: int, k: int)
    requires
        0 <= k < budget,
        k < checks.len(),
        checks[k],
        forall|j: int| 0 <= j < k ==> !checks[j],
    ensures
        forall|j: int| 0 <= j < k ==> #[trigger] decide(j, budget, checks[j]) == RetryDecision::Again,
        decide(k, budget, checks[k]) == RetryDecision::Done,
{
}

/// A check that fails on every attempt of the budget makes the retry go on
/// until the last attempt, and end there as exhausted.
pub proof fn lemma_retry_exhausts_without_pass(checks: Seq<bool>, budget: int)
    requires
        0 < budget <= checks.len(),
        forall|j: int| 0 <= j < budget ==> !checks[j],
    ensures
        forall|j: int| 0 <= j < budget - 1 ==> #[trigger] decide(j, budget, checks[j]) == RetryDecision::Again,
        decide(budget - 1, budget, checks[budget - 1]) == RetryDecision::Exhausted,
{
}

} // verus!
