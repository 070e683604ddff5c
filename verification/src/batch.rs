//! Carrying out a plan as one buffered write.
//!
//! Every operation of the plan is queued, in order, and only then is the
//! output flushed, so that the consumer sees all of the plan or none of it.
//! The first step that fails ends the batch: nothing after it is queued, and
//! what was queued before it is not flushed. A plan without operations has
//! nothing to queue and nothing to flush: its batch has succeeded before any
//! step is asked for, whatever state the output is in.
//!
//! The caller does the writing. It asks [`Batch::next_action`] what to do,
//! does it, and reports with [`Batch::completed`] whether it worked.

use vstd::prelude::*;
use crate::output::{draw_ops, ops_view, CommandModel, Failure, OpModel, OutputOp};

verus! {

/// Where a batch stands.
#[derive(Clone, Copy, Debug, PartialEq, Eq, Structural)]
pub enum BatchPhase {
    /// Operations are still to be queued.
    Queueing,
    /// Every operation is queued; the flush is still to be done.
    Flushing,
    /// Everything was queued and flushed, or there was nothing to do.
    Succeeded,
    /// A step failed.
    Failed,
}

/// What the caller has to do next.
#[derive(Debug, PartialEq, Eq)]
pub enum BatchAction<'a> {
    /// Queue this operation, without flushing.
    Queue(&'a OutputOp),
    /// Flush what has been queued.
    Flush,
    /// The batch is over, with this result.
    Finish(Result<(), Failure>),
}

/// The mathematical value of a [`Batch`]: its plan, how many operations of
/// it have been queued, and its phase.
pub struct BatchModel {
    pub plan: Seq<OpModel>,
    pub queued: nat,
    pub phase: BatchPhase,
}

impl BatchModel {
    /// The flush comes only after the whole plan is queued, and only when
    /// there was something to queue; success comes only with the whole plan
    /// queued.
    pub open spec fn well_formed(self) -> bool {
        &&& self.queued <= self.plan.len()
        &&& self.phase is Queueing ==> self.queued < self.plan.len()
        &&& self.phase is Flushing ==> self.queued == self.plan.len() && self.plan.len() > 0
        &&& self.phase is Succeeded ==> self.queued == self.plan.len()
    }

    /// A batch that has done nothing yet. With operations to queue it starts
    /// queueing; without any it has already succeeded, and no step, not even
    /// a flush, is asked for.
    pub open spec fn start(plan: Seq<OpModel>) -> BatchModel {
        BatchModel {
            plan,
            queued: 0,
            phase: if plan.len() == 0 {
                BatchPhase::Succeeded
            } else {
                BatchPhase::Queueing
            },
        }
    }

    /// The batch after the caller reports how its last step went.
    pub open spec fn step(self, ok: bool) -> BatchModel {
        match self.phase {
            BatchPhase::Queueing => if !ok {
                BatchModel { phase: BatchPhase::Failed, ..self }
            } else if self.queued + 1 == self.plan.len() {
                BatchModel { queued: self.queued + 1, phase: BatchPhase::Flushing, ..self }
            } else {
                BatchModel { queued: self.queued + 1, ..self }
            },
            BatchPhase::Flushing => if ok {
                BatchModel { phase: BatchPhase::Succeeded, ..self }
            } else {
                BatchModel { phase: BatchPhase::Failed, ..self }
            },
            BatchPhase::Succeeded => self,
            BatchPhase::Failed => self,
        }
    }

    /// The batch after a run of reports.
    pub open spec fn run(self, reports: Seq<bool>) -> BatchModel
        decreases reports.len(),
    {
        if reports.len() == 0 {
            self
        } else {
            self.run(reports.drop_last()).step(reports.last())
        }
    }
}

/// A plan being carried out.
pub struct Batch {
    plan: Vec<OutputOp>,
    queued: usize,
    outcome: Option<Result<(), Failure>>,
}

impl View for Batch {
    type V = BatchModel;

    closed spec fn view(&self) -> BatchModel {
        BatchModel {
            plan: ops_view(self.plan@),
            queued: self.queued as nat,
            phase: match self.outcome {
                Some(Ok(_)) => BatchPhase::Succeeded,
                Some(Err(_)) => BatchPhase::Failed,
                None => if self.queued < self.plan.len() {
                    BatchPhase::Queueing
                } else {
                    BatchPhase::Flushing
                },
            },
        }
    }
}

impl Batch {
    #[verifier::type_invariant]
    spec fn consistent(self) -> bool {
        &&& self.queued <= self.plan.len()
        &&& self.outcome is Some && self.outcome->0 is Ok ==> self.queued == self.plan.len()
        &&& self.outcome is None ==> self.plan.len() > 0
    }

    /// Starts on a plan. A plan without operations is done at once: its
    /// batch has succeeded, and nothing is queued or flushed for it.
    pub fn new(plan: Vec<OutputOp>) -> (batch: Batch)
        ensures
            batch@ == BatchModel::start(ops_view(plan@)),
            batch@.well_formed(),
            plan.len() == 0 ==> batch@.phase is Succeeded,
            plan.len() > 0 ==> batch@.phase is Queueing,
    {
        let outcome = if plan.len() == 0 {
            Some(Ok(()))
        } else {
            None
        };
        let batch = Batch { plan, queued: 0, outcome };
        assert(batch@.plan.len() == batch.plan.len());
        batch
    }

    /// Where the batch stands.
    pub fn phase(&self) -> (phase: BatchPhase)
        ensures
            phase == self@.phase,
            self@.well_formed(),
    {
        proof {
            use_type_invariant(self);
            assert(self@.plan.len() == self.plan.len());
        }
        match self.outcome {
            Some(Ok(_)) => BatchPhase::Succeeded,
            Some(Err(_)) => BatchPhase::Failed,
            None => if self.queued < self.plan.len() {
                BatchPhase::Queueing
            } else {
                BatchPhase::Flushing
            },
        }
    }

    /// How many operations of the plan have been queued.
    pub fn queued(&self) -> (queued: usize)
        ensures
            queued == self@.queued,
    {
        self.queued
    }

    /// What to do next: queue the first operation not yet queued, flush, or
    /// stop with the batch's result.
    pub fn next_action(&self) -> (action: BatchAction<'_>)
        ensures
            self@.well_formed(),
            match self@.phase {
                BatchPhase::Queueing => action matches BatchAction::Queue(op) && op@
                    == self@.plan[self@.queued as int],
                BatchPhase::Flushing => action == BatchAction::Flush,
                BatchPhase::Succeeded => action == BatchAction::Finish(Ok(())),
                BatchPhase::Failed => action == BatchAction::Finish(Err(Failure)),
            },
    {
        proof {
            use_type_invariant(self);
            assert(self@.plan.len() == self.plan.len());
        }
        match self.outcome {
            Some(Ok(_)) => BatchAction::Finish(Ok(())),
            Some(Err(_)) => BatchAction::Finish(Err(Failure)),
            None => if self.queued < self.plan.len() {
                BatchAction::Queue(&self.plan[self.queued])
            } else {
                BatchAction::Flush
            },
        }
    }

    /// Reports whether the step that [`Batch::next_action`] asked for
    /// worked. A batch that is over stays as it is.
    pub fn completed(&mut self, ok: bool)
        ensures
            final(self)@ == old(self)@.step(ok),
            final(self)@.well_formed(),
    {
        proof {
            use_type_invariant(&*self);
            assert(self@.plan.len() == self.plan.len());
        }
        match self.outcome {
            Some(_) => {},
            None => {
                if !ok {
                    self.outcome = Some(Err(Failure));
                } else if self.queued < self.plan.len() {
                    self.queued = self.queued + 1;
                } else {
                    self.outcome = Some(Ok(()));
                }
            },
        }
    }
}

/// A step keeps the plan and keeps the batch well formed.
pub proof fn lemma_step_well_formed(batch: BatchModel, ok: bool)
    requires
        batch.well_formed(),
    ensures
        batch.step(ok).well_formed(),
        batch.step(ok).plan == batch.plan,
        batch.queued <= batch.step(ok).queued <= batch.queued + 1,
{
}

/// While every step works, the operations of a plan that has any are queued
/// one by one, in the order of the plan, and the flush comes exactly when all
/// of them are queued.
pub proof fn lemma_queues_in_order(plan: Seq<OpModel>, reports: Seq<bool>)
    requires
        plan.len() > 0,
        reports.len() <= plan.len(),
        forall|i: int| 0 <= i < reports.len() ==> #[trigger] reports[i],
    ensures
        BatchModel::start(plan).run(reports) == (BatchModel {
            plan,
            queued: reports.len(),
            phase: if reports.len() == plan.len() {
                BatchPhase::Flushing
            } else {
                BatchPhase::Queueing
            },
        }),
    decreases reports.len(),
{
    if reports.len() > 0 {
        let shorter = reports.drop_last();
        assert forall|i: int| 0 <= i < shorter.len() implies #[trigger] shorter[i] by {
            assert(shorter[i] == reports[i]);
        }
        lemma_queues_in_order(plan, shorter);
        assert(reports.last() == reports[reports.len() - 1]);
    }
}

/// A batch with operations whose every step works ends in success, with the
/// whole plan queued before the one flush.
pub proof fn lemma_batch_succeeds(plan: Seq<OpModel>, reports: Seq<bool>)
    requires
        plan.len() > 0,
        reports.len() == plan.len() + 1,
        forall|i: int| 0 <= i < reports.len() ==> #[trigger] reports[i],
    ensures
        BatchModel::start(plan).run(reports) == (BatchModel {
            plan,
            queued: plan.len(),
            phase: BatchPhase::Succeeded,
        }),
{
    let shorter = reports.drop_last();
    assert forall|i: int| 0 <= i < shorter.len() implies #[trigger] shorter[i] by {
        assert(shorter[i] == reports[i]);
    }
    lemma_queues_in_order(plan, shorter);
    assert(reports.last() == reports[reports.len() - 1]);
}

/// A batch without operations always succeeds. It has succeeded from the
/// start, with nothing queued, and stays so whatever is reported: the state of
/// the output cannot make it fail.
pub proof fn lemma_empty_batch_succeeds(plan: Seq<OpModel>, reports: Seq<bool>)
    requires
        plan.len() == 0,
    ensures
        BatchModel::start(plan).phase is Succeeded,
        BatchModel::start(plan).run(reports) == (BatchModel {
            plan,
            queued: 0,
            phase: BatchPhase::Succeeded,
        }),
{
    lemma_finished_is_final(BatchModel::start(plan), reports);
}

/// A draw of no commands always succeeds: its plan is empty, so its batch
/// has succeeded before any step is asked for, and no report changes that. A
/// draw of at least one command starts by queueing.
pub proof fn lemma_draw_of_nothing_succeeds(commands: Seq<CommandModel>, reports: Seq<bool>)
    ensures
        commands.len() == 0 ==> BatchModel::start(draw_ops(commands)).run(reports).phase
            is Succeeded,
        commands.len() > 0 ==> BatchModel::start(draw_ops(commands)).phase is Queueing,
{
    if commands.len() == 0 {
        lemma_empty_batch_succeeds(draw_ops(commands), reports);
    }
}

/// A batch that is over takes no further step.
pub proof fn lemma_finished_is_final(batch: BatchModel, reports: Seq<bool>)
    requires
        batch.phase is Succeeded || batch.phase is Failed,
    ensures
        batch.run(reports) == batch,
    decreases reports.len(),
{
    if reports.len() > 0 {
        lemma_finished_is_final(batch, reports.drop_last());
    }
}

/// The first failure ends a batch that has operations. When the first step
/// to fail is step `k`, the batch fails with exactly the first `k` operations
/// queued when `k` is within the plan, and with all of them queued when it is
/// the flush that failed; no later report changes that. Nothing after the
/// failing step is queued, and the batch never counts as flushed.
pub proof fn lemma_first_failure_ends_batch(plan: Seq<OpModel>, reports: Seq<bool>, k: int)
    requires
        plan.len() > 0,
        0 <= k < reports.len(),
        k <= plan.len(),
        !reports[k],
        forall|i: int| 0 <= i < k ==> #[trigger] reports[i],
    ensures
        BatchModel::start(plan).run(reports) == (BatchModel {
            plan,
            queued: k as nat,
            phase: BatchPhase::Failed,
        }),
    decreases reports.len(),
{
    let shorter = reports.drop_last();
    if k == reports.len() - 1 {
        assert forall|i: int| 0 <= i < shorter.len() implies #[trigger] shorter[i] by {
            assert(shorter[i] == reports[i]);
        }
        lemma_queues_in_order(plan, shorter);
        assert(reports.last() == reports[k]);
    } else {
        assert(shorter[k] == reports[k]);
        assert forall|i: int| 0 <= i < k implies #[trigger] shorter[i] by {
            assert(shorter[i] == reports[i]);
        }
        lemma_first_failure_ends_batch(plan, shorter, k);
    }
}

} // verus!
