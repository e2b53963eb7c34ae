//! The retry policy of one target's check: at most `retries + 1` attempts,
//! stopping at the first attempt that yields an HTTP response.
use vstd::prelude::*;

verus! {

/// Fixed delay, in milliseconds, between a failed attempt and the next one.
pub const BACKOFF_MS: u64 = 100;

/// What the caller does after one attempt: wait and try again, or stop with
/// the given result.
pub enum RetryAction {
    Backoff,
    Finish(Result<u16, String>),
}

/// The decision taken after attempt number `attempt` (counted from zero)
/// produced `result`, with a budget of `retries` extra attempts.
pub open spec fn decide(attempt: nat, retries: nat, result: Result<u16, String>) -> RetryAction {
    match result {
        Ok(_) => RetryAction::Finish(result),
        Err(_) => if attempt >= retries {
            RetryAction::Finish(result)
        } else {
            RetryAction::Backoff
        },
    }
}

/// Running the policy against `probes`, where attempt `i` observes
/// `probes[i]`, starting at attempt number `attempt`: the number of attempts
/// made in total and the final result.
pub open spec fn drive(probes: Seq<Result<u16, String>>, retries: nat, attempt: nat) -> (nat, Result<
    u16,
    String,
>)
    decreases retries + 1 - attempt,
{
    match decide(attempt, retries, probes[attempt as int]) {
        RetryAction::Finish(r) => (attempt + 1, r),
        RetryAction::Backoff => if attempt < retries {
            drive(probes, retries, attempt + 1)
        } else {
            (attempt + 1, probes[attempt as int])
        },
    }
}

/// The attempt counter of one target's check.
pub struct RetryState {
    pub attempts: u64,
    pub retries: u32,
    pub finished: bool,
}

impl RetryState {
    /// The counter never passes the budget, and an unfinished check still has
    /// an attempt left.
    pub open spec fn wf(&self) -> bool {
        &&& self.attempts <= self.retries as nat + 1
        &&& !self.finished ==> self.attempts <= self.retries
    }

    pub fn new(retries: u32) -> (s: Self)
        ensures
            s.attempts == 0,
            s.retries == retries,
            !s.finished,
            s.wf(),
    {
        RetryState { attempts: 0, retries, finished: false }
    }

    /// Records the result of the next attempt and says what to do next.
    pub fn record(&mut self, result: Result<u16, String>) -> (a: RetryAction)
        requires
            old(self).wf(),
            !old(self).finished,
        ensures
            final(self).wf(),
            final(self).retries == old(self).retries,
            final(self).attempts == old(self).attempts + 1,
            a == decide(old(self).attempts as nat, old(self).retries as nat, result),
            final(self).finished == (a is Finish),
    {
        let a = match result {
            Ok(code) => RetryAction::Finish(Ok(code)),
            Err(msg) => if self.attempts >= self.retries as u64 {
                RetryAction::Finish(Err(msg))
            } else {
                RetryAction::Backoff
            },
        };
        self.attempts = self.attempts + 1;
        self.finished = match a {
            RetryAction::Backoff => false,
            RetryAction::Finish(_) => true,
        };
        a
    }
}

proof fn lemma_drive_all_failing(probes: Seq<Result<u16, String>>, retries: nat, attempt: nat)
    requires
        attempt <= retries,
        probes.len() > retries,
        forall|i: int| 0 <= i <= retries ==> (#[trigger] probes[i]) is Err,
    ensures
        drive(probes, retries, attempt) == (retries + 1, probes[retries as int]),
    decreases retries - attempt,
{
    if attempt < retries {
        lemma_drive_all_failing(probes, retries, attempt + 1);
    }
}

proof fn lemma_drive_success_at(probes: Seq<Result<u16, String>>, retries: nat, k: nat, attempt: nat)
    requires
        attempt <= k <= retries,
        probes.len() > retries,
        forall|i: int| 0 <= i < k ==> (#[trigger] probes[i]) is Err,
        probes[k as int] is Ok,
    ensures
        drive(probes, retries, attempt) == (k + 1, probes[k as int]),
    decreases k - attempt,
{
    if attempt < k {
        lemma_drive_success_at(probes, retries, k, attempt + 1);
    }
}

/// A target whose every attempt fails is tried exactly `retries + 1` times,
/// and its outcome is the error of the last attempt.
pub proof fn law_always_failing_uses_whole_budget(probes: Seq<Result<u16, String>>, retries: nat)
    requires
        probes.len() > retries,
        forall|i: int| 0 <= i <= retries ==> (#[trigger] probes[i]) is Err,
    ensures
        drive(probes, retries, 0).0 == retries + 1,
        drive(probes, retries, 0).1 == probes[retries as int],
        drive(probes, retries, 0).1 is Err,
{
    lemma_drive_all_failing(probes, retries, 0);
}

/// A target whose first `k` attempts fail and whose next one succeeds, within
/// the budget, is tried exactly `k + 1` times and its outcome is that success:
/// no attempt follows a success.
pub proof fn law_stops_at_first_success(probes: Seq<Result<u16, String>>, retries: nat, k: nat)
    requires
        k <= retries,
        probes.len() > retries,
        forall|i: int| 0 <= i < k ==> (#[trigger] probes[i]) is Err,
        probes[k as int] is Ok,
    ensures
        drive(probes, retries, 0).0 == k + 1,
        drive(probes, retries, 0).1 == probes[k as int],
        drive(probes, retries, 0).1 is Ok,
{
    lemma_drive_success_at(probes, retries, k, 0);
}

} // verus!
