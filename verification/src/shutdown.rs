//! The graceful shutdown coordinator: a registry of spawned tasks bound to
//! a single-fire shutdown signal. Signaling is idempotent; draining is
//! bounded by a grace duration — tasks that finish within it complete,
//! tasks still running at the deadline are abandoned, and the caller is
//! told whether the deadline was hit.

use vstd::prelude::*;

verus! {

/// One registered background task: its identifier and how long it still
/// needs to finish once the shutdown signal is observed.
#[derive(Debug, PartialEq, Eq, Structural, Clone, Copy)]
pub struct TaskEntry {
    pub id: u64,
    pub runtime: u64,
}

/// The result of a bounded drain: success when every task finished within
/// the grace duration, a timeout when at least one had to be abandoned.
#[derive(Debug, PartialEq, Eq, Structural, Clone, Copy)]
pub enum ShutdownOutcome {
    Finished,
    TimedOut,
}

/// What a bounded drain observed: the overall outcome, the tasks that
/// finished within the grace duration, and the tasks that were abandoned,
/// both in registration order.
pub struct DrainReport {
    pub outcome: ShutdownOutcome,
    pub finished: Vec<u64>,
    pub abandoned: Vec<u64>,
}

/// The identifiers of the tasks that finish within the grace duration, in
/// registration order.
pub open spec fn spec_finished_ids(tasks: Seq<TaskEntry>, grace: u64) -> Seq<u64> {
    tasks.filter(|t: TaskEntry| t.runtime <= grace).map_values(|t: TaskEntry| t.id)
}

/// The identifiers of the tasks that are still running at the deadline, in
/// registration order.
pub open spec fn spec_abandoned_ids(tasks: Seq<TaskEntry>, grace: u64) -> Seq<u64> {
    tasks.filter(|t: TaskEntry| t.runtime > grace).map_values(|t: TaskEntry| t.id)
}

/// The shutdown coordinator: owns the single-fire signal and the registry
/// of spawned tasks.
pub struct ShutdownCoordinator {
    signaled: bool,
    tasks: Vec<TaskEntry>,
}

/// The relation between a coordinator before and after a signal request:
/// the signal is set, the task registry is untouched — so a second request
/// changes nothing at all.
pub open spec fn trigger_post(pre: ShutdownCoordinator, post: ShutdownCoordinator) -> bool {
    &&& post.spec_signaled()
    &&& post.spec_tasks() == pre.spec_tasks()
    &&& pre.spec_signaled() ==> post == pre
}

impl ShutdownCoordinator {
    /// Whether the shutdown signal has been fired.
    pub closed spec fn spec_signaled(&self) -> bool {
        self.signaled
    }

    /// The registered tasks, in registration order.
    pub closed spec fn spec_tasks(&self) -> Seq<TaskEntry> {
        self.tasks@
    }

    /// A fresh coordinator: no signal fired, no tasks registered.
    pub fn new() -> (r: ShutdownCoordinator)
        ensures
            !r.spec_signaled(),
            r.spec_tasks() == Seq::<TaskEntry>::empty(),
    {
        ShutdownCoordinator { signaled: false, tasks: Vec::new() }
    }

    /// Register and start one background task. Tasks can only be spawned
    /// before the signal fires.
    pub fn spawn_task(&mut self, id: u64, runtime: u64)
        requires
            !old(self).spec_signaled(),
        ensures
            !final(self).spec_signaled(),
            final(self).spec_tasks() == old(self).spec_tasks().push(
                TaskEntry { id, runtime },
            ),
    {
        self.tasks.push(TaskEntry { id, runtime });
    }

    /// Fire the shutdown signal. Firing is idempotent: the first call sets
    /// the signal, every later call is a no-op.
    pub fn trigger_shutdown(&mut self)
        ensures
            trigger_post(*old(self), *final(self)),
    {
        if !self.signaled {
            self.signaled = true;
        }
    }

    /// Fire the shutdown signal if it has not fired yet, then wait out the
    /// grace duration: every task that finishes within it completes and is
    /// reported as finished; every task still running at the deadline is
    /// abandoned — no longer awaited, not killed — and the report says the
    /// deadline was hit exactly when at least one task was abandoned.
    pub fn shutdown_with_limit(&mut self, grace: u64) -> (r: DrainReport)
        ensures
            trigger_post(*old(self), *final(self)),
            r.finished@ == spec_finished_ids(old(self).spec_tasks(), grace),
            r.abandoned@ == spec_abandoned_ids(old(self).spec_tasks(), grace),
            (r.outcome == ShutdownOutcome::TimedOut) <==> exists|i: int|
                0 <= i < old(self).spec_tasks().len() && old(self).spec_tasks()[i].runtime > grace,
    {
        self.trigger_shutdown();
        let n = self.tasks.len();
        let mut finished: Vec<u64> = Vec::new();
        let mut abandoned: Vec<u64> = Vec::new();
        let mut i: usize = 0;
        while i < n
            invariant
                i <= n,
                n == self.tasks@.len(),
                finished@ == spec_finished_ids(self.tasks@.take(i as int), grace),
                abandoned@ == spec_abandoned_ids(self.tasks@.take(i as int), grace),
            decreases n - i,
        {
            let t = self.tasks[i];
            proof {
                reveal(Seq::filter);
                let pre = self.tasks@.take(i as int);
                let cur = self.tasks@.take(i + 1);
                assert(cur.drop_last() =~= pre);
                assert(cur.last() == self.tasks@[i as int]);
                let keep = |t: TaskEntry| t.runtime <= grace;
                let over = |t: TaskEntry| t.runtime > grace;
                let ids = |t: TaskEntry| t.id;
                if keep(self.tasks@[i as int]) {
                    assert(cur.filter(keep) =~= pre.filter(keep).push(cur.last()));
                    assert(cur.filter(over) =~= pre.filter(over));
                    assert(cur.filter(keep).map_values(ids) =~= pre.filter(keep).map_values(
                        ids,
                    ).push(cur.last().id));
                } else {
                    assert(cur.filter(keep) =~= pre.filter(keep));
                    assert(cur.filter(over) =~= pre.filter(over).push(cur.last()));
                    assert(cur.filter(over).map_values(ids) =~= pre.filter(over).map_values(
                        ids,
                    ).push(cur.last().id));
                }
            }
            if t.runtime <= grace {
                finished.push(t.id);
            } else {
                abandoned.push(t.id);
            }
            i += 1;
        }
        proof {
            assert(self.tasks@.take(n as int) =~= self.tasks@);
            if abandoned@.len() > 0 {
                lemma_over_grace_witness(self.tasks@, grace);
            } else {
                assert forall|i: int|
                    0 <= i < self.tasks@.len() implies !(self.tasks@[i].runtime > grace) by {
                    if self.tasks@[i].runtime > grace {
                        Seq::lemma_filter_contains(
                            self.tasks@,
                            |t: TaskEntry| t.runtime > grace,
                            i,
                        );
                    }
                }
            }
        }
        let outcome = if abandoned.len() > 0 {
            ShutdownOutcome::TimedOut
        } else {
            ShutdownOutcome::Finished
        };
        DrainReport { outcome, finished, abandoned }
    }
}

/// When any task identifier was filtered out as over the grace duration,
/// some registered task is over it.
proof fn lemma_over_grace_witness(tasks: Seq<TaskEntry>, grace: u64)
    requires
        tasks.filter(|t: TaskEntry| t.runtime > grace).len() > 0,
    ensures
        exists|i: int| 0 <= i < tasks.len() && tasks[i].runtime > grace,
    decreases tasks.len(),
{
    reveal(Seq::filter);
    if tasks.len() > 0 {
        if tasks.last().runtime > grace {
            assert(tasks[tasks.len() - 1].runtime > grace);
        } else {
            lemma_over_grace_witness(tasks.drop_last(), grace);
            let i = choose|i: int|
                0 <= i < tasks.drop_last().len() && tasks.drop_last()[i].runtime > grace;
            assert(tasks[i].runtime > grace);
        }
    }
}

/// Firing the shutdown signal twice has the same observable effect as
/// firing it once: after the first request the signal is set, and a second
/// request leaves the coordinator exactly as it was.
pub proof fn lemma_trigger_is_idempotent(
    c0: ShutdownCoordinator,
    c1: ShutdownCoordinator,
    c2: ShutdownCoordinator,
)
    requires
        trigger_post(c0, c1),
        trigger_post(c1, c2),
    ensures
        c2 == c1,
        c1.spec_signaled(),
{
}

/// A drain times out exactly when some task outlives the grace duration,
/// and every task within the grace duration is reported finished: with no
/// task over the limit the outcome is success and nothing is abandoned.
pub proof fn lemma_drain_outcome(tasks: Seq<TaskEntry>, grace: u64)
    ensures
        (forall|i: int| 0 <= i < tasks.len() ==> tasks[i].runtime <= grace)
            ==> spec_abandoned_ids(tasks, grace) == Seq::<u64>::empty() && spec_finished_ids(
            tasks,
            grace,
        ).len() == tasks.len(),
    decreases tasks.len(),
{
    reveal(Seq::filter);
    if tasks.len() > 0 {
        lemma_drain_outcome(tasks.drop_last(), grace);
        if forall|i: int| 0 <= i < tasks.len() ==> tasks[i].runtime <= grace {
            assert(forall|i: int|
                0 <= i < tasks.drop_last().len() ==> tasks.drop_last()[i] == tasks[i]);
            assert(tasks.last().runtime <= grace);
            assert(tasks.filter(|t: TaskEntry| t.runtime > grace) =~= tasks.drop_last().filter(
                |t: TaskEntry| t.runtime > grace,
            ));
            assert(tasks.filter(|t: TaskEntry| t.runtime <= grace) =~= tasks.drop_last().filter(
                |t: TaskEntry| t.runtime <= grace,
            ).push(tasks.last()));
        }
    }
}

} // verus!
