use vstd::prelude::*;

verus! {

/// Where a unit of work stands. `Committed` and `Aborted` are final.
#[derive(Clone, Copy, Debug, PartialEq, Eq, Structural)]
pub enum Phase {
    Started,
    Validated,
    Persisted,
    Committed,
    Aborted,
}

/// What the storage side reports back to the unit of work.
#[derive(Clone, Copy, Debug, PartialEq, Eq, Structural)]
pub enum Signal {
    /// The request passed its checks and needs `writes` rows written.
    Checked { writes: usize },
    /// The request failed its checks.
    Refused,
    /// The row asked for last was written inside the transaction.
    RowWritten,
    /// The transaction committed.
    CommitDone,
    /// A read, a write or the commit failed.
    StorageFailed,
}

/// What the storage side is to do next.
#[derive(Clone, Copy, Debug, PartialEq, Eq, Structural)]
pub enum Directive {
    /// Write row `index` of the batch inside the transaction.
    Write { index: usize },
    /// Commit the transaction.
    Commit,
    /// Roll the transaction back.
    Rollback,
    /// Nothing more: the unit is over.
    Finish,
}

/// One request's transaction: its phase, the rows it is to write and how
/// many of them have been written.
#[derive(Clone, Copy, Debug, PartialEq, Eq, Structural)]
pub struct UnitOfWork {
    pub phase: Phase,
    pub planned: usize,
    pub written: usize,
}

impl UnitOfWork {
    /// Writes are counted against the plan: none before validation, some
    /// still outstanding while validated, all of them once persisted.
    pub open spec fn wf(self) -> bool {
        &&& self.written <= self.planned
        &&& self.phase == Phase::Started ==> self.planned == 0 && self.written == 0
        &&& self.phase == Phase::Validated ==> self.written < self.planned
        &&& (self.phase == Phase::Persisted || self.phase == Phase::Committed) ==> self.written
            == self.planned
    }
}

/// A unit that has neither checked nor written anything.
pub open spec fn started() -> UnitOfWork {
    UnitOfWork { phase: Phase::Started, planned: 0, written: 0 }
}

/// `u`, given up.
pub open spec fn aborted(u: UnitOfWork) -> UnitOfWork {
    UnitOfWork { phase: Phase::Aborted, ..u }
}

/// The transition function: the next state and directive for a signal.
pub open spec fn step_spec(u: UnitOfWork, s: Signal) -> (UnitOfWork, Directive) {
    if u.phase == Phase::Committed || u.phase == Phase::Aborted {
        (u, Directive::Finish)
    } else {
        match s {
            Signal::StorageFailed => (aborted(u), Directive::Rollback),
            Signal::Checked { writes } => if u.phase != Phase::Started {
                (aborted(u), Directive::Rollback)
            } else if writes == 0 {
                (UnitOfWork { phase: Phase::Persisted, planned: 0, written: 0 }, Directive::Commit)
            } else {
                (
                    UnitOfWork { phase: Phase::Validated, planned: writes, written: 0 },
                    Directive::Write { index: 0 },
                )
            },
            Signal::RowWritten => if u.phase != Phase::Validated {
                (aborted(u), Directive::Rollback)
            } else if u.written + 1 == u.planned {
                (
                    UnitOfWork { phase: Phase::Persisted, planned: u.planned, written: u.planned },
                    Directive::Commit,
                )
            } else {
                (
                    UnitOfWork {
                        phase: Phase::Validated,
                        planned: u.planned,
                        written: (u.written + 1) as usize,
                    },
                    Directive::Write { index: (u.written + 1) as usize },
                )
            },
            Signal::CommitDone => if u.phase == Phase::Persisted {
                (UnitOfWork { phase: Phase::Committed, ..u }, Directive::Finish)
            } else {
                (aborted(u), Directive::Rollback)
            },
            Signal::Refused => (aborted(u), Directive::Rollback),
        }
    }
}

/// The state reached from `u` by the signals `sigs`, in order.
pub open spec fn run(u: UnitOfWork, sigs: Seq<Signal>) -> UnitOfWork
    decreases sigs.len(),
{
    if sigs.len() == 0 {
        u
    } else {
        step_spec(run(u, sigs.drop_last()), sigs.last()).0
    }
}

/// The directive issued for the signal at position `k` of `sigs`, run from `u`.
pub open spec fn directive_at(u: UnitOfWork, sigs: Seq<Signal>, k: int) -> Directive {
    step_spec(run(u, sigs.take(k)), sigs[k]).1
}

/// Every step keeps the write count within the plan.
pub proof fn lemma_step_wf(u: UnitOfWork, s: Signal)
    requires
        u.wf(),
    ensures
        step_spec(u, s).0.wf(),
{
}

/// Running a prefix and then one more signal is running the longer sequence.
pub proof fn lemma_run_take(u: UnitOfWork, sigs: Seq<Signal>, k: int)
    requires
        0 <= k < sigs.len(),
    ensures
        run(u, sigs.take(k + 1)) == step_spec(run(u, sigs.take(k)), sigs[k]).0,
{
    assert(sigs.take(k + 1).drop_last() =~= sigs.take(k));
}

/// Every run keeps the write count within the plan.
pub proof fn lemma_run_wf(u: UnitOfWork, sigs: Seq<Signal>)
    requires
        u.wf(),
    ensures
        run(u, sigs).wf(),
    decreases sigs.len(),
{
    if sigs.len() > 0 {
        lemma_run_wf(u, sigs.drop_last());
        lemma_step_wf(run(u, sigs.drop_last()), sigs.last());
    }
}

/// A finished unit stays as it is, whatever is signalled after.
pub proof fn lemma_final_absorbs(u: UnitOfWork, sigs: Seq<Signal>)
    requires
        u.phase == Phase::Committed || u.phase == Phase::Aborted,
    ensures
        run(u, sigs) == u,
    decreases sigs.len(),
{
    if sigs.len() > 0 {
        lemma_final_absorbs(u, sigs.drop_last());
    }
}

/// Running `a` then `b` is running `a + b`.
pub proof fn lemma_run_concat(u: UnitOfWork, a: Seq<Signal>, b: Seq<Signal>)
    ensures
        run(u, a + b) == run(run(u, a), b),
    decreases b.len(),
{
    if b.len() == 0 {
        assert(a + b =~= a);
    } else {
        assert((a + b).drop_last() =~= a + b.drop_last());
        lemma_run_concat(u, a, b.drop_last());
    }
}

/// Commit is asked for only once every planned row has been written, and
/// a write is asked for only for the next row of the plan.
pub proof fn lemma_commit_only_when_complete(u: UnitOfWork, s: Signal)
    requires
        u.wf(),
    ensures
        step_spec(u, s).1 == Directive::Commit ==> step_spec(u, s).0.written == step_spec(
            u,
            s,
        ).0.planned,
        step_spec(u, s).1 matches Directive::Write { index } ==> index == step_spec(u, s).0.written
            && index < step_spec(u, s).0.planned,
        step_spec(u, s).0.phase == Phase::Committed ==> step_spec(u, s).0.written == step_spec(
            u,
            s,
        ).0.planned,
{
}

/// Atomicity: when storage fails before the commit went through (say, on
/// the second row of a batch), the transaction is rolled back, the unit
/// ends aborted whatever follows, and it never again asks for a write or a
/// commit, so none of the batch's rows is kept.
pub proof fn lemma_failure_discards_batch(before: Seq<Signal>, after: Seq<Signal>)
    requires
        run(started(), before).phase != Phase::Committed,
    ensures
        run(started(), before).phase != Phase::Aborted ==> step_spec(
            run(started(), before),
            Signal::StorageFailed,
        ).1 == Directive::Rollback,
        run(started(), before.push(Signal::StorageFailed) + after).phase == Phase::Aborted,
        forall|j: int|
            0 <= j < after.len() ==> #[trigger] directive_at(
                started(),
                before.push(Signal::StorageFailed) + after,
                before.len() + 1 + j,
            ) == Directive::Finish,
{
    let pre = before.push(Signal::StorageFailed);
    let all = pre + after;
    let v = run(started(), pre);
    assert(pre.drop_last() =~= before);
    assert(v.phase == Phase::Aborted);
    lemma_run_concat(started(), pre, after);
    lemma_final_absorbs(v, after);
    assert forall|j: int| 0 <= j < after.len() implies #[trigger] directive_at(
        started(),
        all,
        before.len() + 1 + j,
    ) == Directive::Finish by {
        let k = before.len() + 1 + j;
        assert(all.take(k) =~= pre + after.take(j));
        lemma_run_concat(started(), pre, after.take(j));
        lemma_final_absorbs(v, after.take(j));
        assert(all[k] == after[j]);
    }
}

/// A unit whose request failed its checks is rolled back at once and never
/// asks for a write or a commit afterwards, so nothing it proposed is stored.
pub proof fn lemma_refusal_stores_nothing(after: Seq<Signal>)
    ensures
        step_spec(started(), Signal::Refused).1 == Directive::Rollback,
        run(started(), seq![Signal::Refused] + after).phase == Phase::Aborted,
        run(started(), seq![Signal::Refused] + after).written == 0,
        forall|j: int|
            0 <= j < after.len() ==> #[trigger] directive_at(
                started(),
                seq![Signal::Refused] + after,
                1 + j,
            ) == Directive::Finish,
{
    let pre = seq![Signal::Refused];
    let all = pre + after;
    let v = run(started(), pre);
    assert(pre.drop_last() =~= Seq::<Signal>::empty());
    assert(run(started(), pre.drop_last()) == started());
    assert(pre.last() == Signal::Refused);
    assert(v == aborted(started()));
    lemma_run_concat(started(), pre, after);
    lemma_final_absorbs(v, after);
    assert forall|j: int| 0 <= j < after.len() implies #[trigger] directive_at(
        started(),
        all,
        1 + j,
    ) == Directive::Finish by {
        assert(all.take(1 + j) =~= pre + after.take(j));
        lemma_run_concat(started(), pre, after.take(j));
        lemma_final_absorbs(v, after.take(j));
        assert(all[1 + j] == after[j]);
    }
}

/// A read-only unit (one checked with no rows to write) never asks for a
/// write: two reads with no write unit between them see the same stored
/// state.
pub proof fn lemma_read_only_never_writes(sigs: Seq<Signal>)
    requires
        sigs.len() > 0,
        sigs[0] == (Signal::Checked { writes: 0 }),
    ensures
        forall|k: int| 0 <= k < sigs.len() ==> !(directive_at(started(), sigs, k) is Write),
        run(started(), sigs).planned == 0,
        run(started(), sigs).written == 0,
{
    assert forall|k: int| 0 <= k < sigs.len() implies {
        &&& !(directive_at(started(), sigs, k) is Write)
        &&& read_only(run(started(), sigs.take(k + 1)))
    } by {
        lemma_read_only_prefix(sigs, k);
    }
    lemma_read_only_prefix(sigs, sigs.len() - 1);
    assert(sigs.take(sigs.len() as int) =~= sigs);
}

spec fn read_only(u: UnitOfWork) -> bool {
    &&& u.planned == 0
    &&& u.written == 0
    &&& u.phase != Phase::Started
    &&& u.phase != Phase::Validated
}

proof fn lemma_read_only_prefix(sigs: Seq<Signal>, k: int)
    requires
        0 <= k < sigs.len(),
        sigs[0] == (Signal::Checked { writes: 0 }),
    ensures
        !(directive_at(started(), sigs, k) is Write),
        read_only(run(started(), sigs.take(k + 1))),
    decreases k,
{
    lemma_run_take(started(), sigs, k);
    if k == 0 {
        assert(sigs.take(0) =~= Seq::<Signal>::empty());
    } else {
        lemma_read_only_prefix(sigs, k - 1);
    }
}

impl UnitOfWork {
    /// A fresh unit: nothing read, checked or written yet.
    pub fn start() -> (r: UnitOfWork)
        ensures
            r == started(),
            r.wf(),
    {
        UnitOfWork { phase: Phase::Started, planned: 0, written: 0 }
    }

    /// Takes in what storage reported and says what it is to do next.
    pub fn step(&mut self, s: Signal) -> (d: Directive)
        requires
            old(self).wf(),
        ensures
            (*final(self), d) == step_spec(*old(self), s),
            final(self).wf(),
    {
        if self.phase == Phase::Committed || self.phase == Phase::Aborted {
            return Directive::Finish;
        }
        match s {
            Signal::StorageFailed | Signal::Refused => {
                self.phase = Phase::Aborted;
                Directive::Rollback
            },
            Signal::Checked { writes } => {
                if self.phase != Phase::Started {
                    self.phase = Phase::Aborted;
                    Directive::Rollback
                } else if writes == 0 {
                    self.phase = Phase::Persisted;
                    Directive::Commit
                } else {
                    self.phase = Phase::Validated;
                    self.planned = writes;
                    Directive::Write { index: 0 }
                }
            },
            Signal::RowWritten => {
                if self.phase != Phase::Validated {
                    self.phase = Phase::Aborted;
                    Directive::Rollback
                } else if self.written + 1 == self.planned {
                    self.phase = Phase::Persisted;
                    self.written = self.planned;
                    Directive::Commit
                } else {
                    self.written = self.written + 1;
                    Directive::Write { index: self.written }
                }
            },
            Signal::CommitDone => {
                if self.phase == Phase::Persisted {
                    self.phase = Phase::Committed;
                    Directive::Finish
                } else {
                    self.phase = Phase::Aborted;
                    Directive::Rollback
                }
            },
        }
    }
}

} // verus!
