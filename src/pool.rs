//! The state shared by the workers of one run: the queue of targets, which
//! hands each target to exactly one worker, and the result slots, which take
//! exactly one outcome per target.
use vstd::prelude::*;
use crate::report::{CheckOutcome, Elapsed};

verus! {

/// Settings of one run.
pub struct PoolConfig {
    pub worker_count: usize,
    pub timeout_secs: u64,
    pub retries: u32,
}

pub enum ConfigError {
    NoWorkers,
    ZeroTimeout,
}

impl PoolConfig {
    /// Validates the settings: at least one worker and a positive timeout.
    pub fn new(worker_count: usize, timeout_secs: u64, retries: u32) -> (r: Result<
        PoolConfig,
        ConfigError,
    >)
        ensures
            worker_count == 0 ==> r == Err::<PoolConfig, ConfigError>(ConfigError::NoWorkers),
            worker_count > 0 && timeout_secs == 0 ==> r == Err::<PoolConfig, ConfigError>(
                ConfigError::ZeroTimeout,
            ),
            worker_count > 0 && timeout_secs > 0 ==> r == Ok::<PoolConfig, ConfigError>(
                (PoolConfig { worker_count, timeout_secs, retries }),
            ),
    {
        if worker_count == 0 {
            Err(ConfigError::NoWorkers)
        } else if timeout_secs == 0 {
            Err(ConfigError::ZeroTimeout)
        } else {
            Ok(PoolConfig { worker_count, timeout_secs, retries })
        }
    }
}

/// What a worker receives when it asks for work.
pub enum Take {
    /// The target at this position of the queue, to be checked by this worker.
    Target(usize, String),
    /// Nothing is queued now, but more may come.
    Wait,
    /// The queue is closed and drained: the worker stops.
    Closed,
}

pub struct WorkPool {
    /// Every target enqueued so far, in order.
    pub targets: Vec<String>,
    /// The outcome of each target, once a worker has delivered it.
    pub slots: Vec<Option<CheckOutcome>>,
    /// Targets before this position have been handed out.
    pub next: usize,
    pub closed: bool,
}

impl WorkPool {
    pub open spec fn wf(&self) -> bool {
        &&& self.slots@.len() == self.targets@.len()
        &&& self.next <= self.targets@.len()
        &&& forall|i: int|
            0 <= i < self.slots@.len() && (#[trigger] self.slots@[i]) is Some ==> i
                < self.next && self.slots@[i]->0.url@ == self.targets@[i]@
    }

    /// The run is over: no target can come, each has been handed out, and
    /// each has its outcome.
    pub open spec fn finished(&self) -> bool {
        &&& self.closed
        &&& self.next == self.targets@.len()
        &&& forall|i: int| 0 <= i < self.slots@.len() ==> (#[trigger] self.slots@[i]) is Some
    }

    pub fn new() -> (p: Self)
        ensures
            p.wf(),
            p.targets@.len() == 0,
            p.next == 0,
            !p.closed,
    {
        WorkPool { targets: Vec::new(), slots: Vec::new(), next: 0, closed: false }
    }

    /// Queues one target; refused once the queue is closed.
    pub fn enqueue(&mut self, url: String) -> (accepted: bool)
        requires
            old(self).wf(),
        ensures
            final(self).wf(),
            accepted == !old(self).closed,
            final(self).closed == old(self).closed,
            final(self).next == old(self).next,
            accepted ==> final(self).targets@ == old(self).targets@.push(url),
            accepted ==> final(self).slots@ == old(self).slots@.push(None),
            !accepted ==> final(self).targets@ == old(self).targets@,
            !accepted ==> final(self).slots@ == old(self).slots@,
    {
        if self.closed {
            return false;
        }
        self.targets.push(url);
        self.slots.push(None);
        true
    }

    /// Signals that no more targets will come.
    pub fn close(&mut self)
        requires
            old(self).wf(),
        ensures
            final(self).wf(),
            final(self).closed,
            final(self).targets@ == old(self).targets@,
            final(self).slots@ == old(self).slots@,
            final(self).next == old(self).next,
    {
        self.closed = true;
    }

    /// Hands the oldest target not yet handed out to the calling worker.
    pub fn take(&mut self) -> (t: Take)
        requires
            old(self).wf(),
        ensures
            final(self).wf(),
            final(self).targets@ == old(self).targets@,
            final(self).slots@ == old(self).slots@,
            final(self).closed == old(self).closed,
            old(self).next < old(self).targets@.len() ==> final(self).next == old(self).next + 1,
            old(self).next < old(self).targets@.len() ==> (t matches Take::Target(i, u) && i == old(
                self,
            ).next && u@ == old(self).targets@[i as int]@),
            old(self).next == old(self).targets@.len() ==> final(self).next == old(self).next
                && (if old(self).closed {
                t is Closed
            } else {
                t is Wait
            }),
    {
        if self.next < self.targets.len() {
            let i = self.next;
            let u = self.targets[i].clone();
            self.next = i + 1;
            Take::Target(i, u)
        } else if self.closed {
            Take::Closed
        } else {
            Take::Wait
        }
    }

    /// Stores the outcome of the target at position `slot`. Refused, and
    /// nothing changes, unless that target was handed out and has no outcome
    /// yet.
    pub fn complete(
        &mut self,
        slot: usize,
        result: Result<u16, String>,
        elapsed: Elapsed,
        timestamp: String,
    ) -> (accepted: bool)
        requires
            old(self).wf(),
        ensures
            final(self).wf(),
            accepted == (slot < old(self).next && old(self).slots@[slot as int] is None),
            final(self).targets@ == old(self).targets@,
            final(self).closed == old(self).closed,
            final(self).next == old(self).next,
            !accepted ==> final(self).slots@ == old(self).slots@,
            accepted ==> final(self).slots@.len() == old(self).slots@.len(),
            accepted ==> forall|i: int|
                0 <= i < old(self).slots@.len() && i != slot ==> final(self).slots@[i] == old(
                    self,
                ).slots@[i],
            accepted ==> (final(self).slots@[slot as int] matches Some(o) && o.url@ == old(
                self,
            ).targets@[slot as int]@ && o.result == result && o.elapsed == elapsed && o.timestamp
                == timestamp),
    {
        if slot >= self.next {
            return false;
        }
        if self.slots[slot].is_some() {
            return false;
        }
        let o = CheckOutcome { url: self.targets[slot].clone(), result, elapsed, timestamp };
        self.slots.set(slot, Some(o));
        true
    }

    pub fn is_finished(&self) -> (r: bool)
        requires
            self.wf(),
        ensures
            r == self.finished(),
    {
        if !self.closed || self.next < self.targets.len() {
            return false;
        }
        let mut i: usize = 0;
        while i < self.slots.len()
            invariant
                i <= self.slots@.len(),
                forall|j: int| 0 <= j < i ==> (#[trigger] self.slots@[j]) is Some,
            decreases self.slots@.len() - i,
        {
            if self.slots[i].is_none() {
                return false;
            }
            i = i + 1;
        }
        true
    }

    /// The outcomes of a finished run, one per target, in queue order.
    pub fn into_results(self) -> (r: Vec<CheckOutcome>)
        requires
            self.wf(),
            self.finished(),
        ensures
            r@.len() == self.targets@.len(),
            forall|i: int| 0 <= i < r@.len() ==> Some(#[trigger] r@[i]) == self.slots@[i],
    {
        let ghost all = self.slots@;
        let mut slots = self.slots;
        let mut r: Vec<CheckOutcome> = Vec::new();
        let n = slots.len();
        while slots.len() > 0
            invariant
                n == all.len(),
                slots@.len() + r@.len() == n,
                slots@ == all.subrange(r@.len() as int, n as int),
                forall|j: int| 0 <= j < n ==> (#[trigger] all[j]) is Some,
                forall|j: int| 0 <= j < r@.len() ==> Some(#[trigger] r@[j]) == all[j],
            decreases slots@.len(),
        {
            let s = slots.remove(0);
            assert(s == all[r@.len() as int]);
            match s {
                Some(o) => r.push(o),
                None => {},
            }
        }
        r
    }
}

/// However many workers share a pool and however their requests interleave,
/// a finished run holds exactly one outcome for each enqueued target, and
/// that outcome is for that target's URL.
pub proof fn law_one_outcome_per_target(p: WorkPool)
    requires
        p.wf(),
        p.finished(),
    ensures
        p.slots@.len() == p.targets@.len(),
        forall|i: int|
            0 <= i < p.targets@.len() ==> (#[trigger] p.slots@[i]) is Some && p.slots@[i]->0.url@
                == p.targets@[i]@,
{
}

/// Two finished runs on the same targets, in which the result of each check
/// depends on its URL alone, hold the same outcomes target by target, up to
/// timing: the number of workers of either run plays no part.
pub proof fn law_runs_agree(p1: WorkPool, p2: WorkPool, check: spec_fn(Seq<char>) -> Result<u16, String>)
    requires
        p1.wf(),
        p1.finished(),
        p2.wf(),
        p2.finished(),
        p1.targets@.len() == p2.targets@.len(),
        forall|i: int| 0 <= i < p1.targets@.len() ==> (#[trigger] p1.targets@[i])@ == p2.targets@[i]@,
        forall|i: int|
            0 <= i < p1.slots@.len() ==> (#[trigger] p1.slots@[i])->0.result == check(
                p1.slots@[i]->0.url@,
            ),
        forall|i: int|
            0 <= i < p2.slots@.len() ==> (#[trigger] p2.slots@[i])->0.result == check(
                p2.slots@[i]->0.url@,
            ),
    ensures
        forall|i: int|
            0 <= i < p1.slots@.len() ==> (#[trigger] p1.slots@[i])->0.url@ == p2.slots@[i]->0.url@
                && p1.slots@[i]->0.result == p2.slots@[i]->0.result,
{
    assert forall|i: int| 0 <= i < p1.slots@.len() implies (#[trigger] p1.slots@[i])->0.url@
        == p2.slots@[i]->0.url@ && p1.slots@[i]->0.result == p2.slots@[i]->0.result by {
        assert(p1.slots@[i] is Some);
        assert(p2.slots@[i] is Some);
        assert(p1.targets@[i]@ == p2.targets@[i]@);
    }
}

/// A closed pool that never received a target is finished at once: no worker
/// gets anything to check, and the run has no outcome.
pub proof fn law_empty_run_is_finished(p: WorkPool)
    requires
        p.wf(),
        p.closed,
        p.targets@.len() == 0,
    ensures
        p.finished(),
        p.next == 0,
        p.slots@.len() == 0,
{
}

} // verus!
