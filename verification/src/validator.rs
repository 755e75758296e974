//! Checking the rows that a table already holds.
//!
//! The rows are read in partitions, one task for each. A task reports what
//! came of each batch to a [`PartitionCheck`], which tells it when to stop;
//! when every task has ended, [`aggregate`] decides from their outcomes
//! whether the table passed.

use crate::error::{FailureModel, ValidationFailure};
use vstd::prelude::*;

verus! {

impl Clone for ValidationFailure {
    fn clone(&self) -> (copy: Self)
        ensures
            copy@ == self@,
    {
        match self {
            ValidationFailure::Violation(text) => ValidationFailure::Violation(text.clone()),
            ValidationFailure::Read(text) => ValidationFailure::Read(text.clone()),
            ValidationFailure::Scan(text) => ValidationFailure::Scan(text.clone()),
            ValidationFailure::Aborted(text) => ValidationFailure::Aborted(text.clone()),
        }
    }
}

/// What a task learns when it asks its partition for the next batch.
#[derive(Debug)]
pub enum BatchEvent {
    /// A batch was read and all its rows satisfy the predicate.
    Passed,
    /// A batch was read and a row of it does not satisfy the predicate.
    Violated(String),
    /// The next batch could not be read.
    Unreadable(String),
    /// The partition has no more batches.
    Exhausted,
}

/// What a [`BatchEvent`] stands for.
pub enum BatchEventModel {
    Passed,
    Violated(Seq<char>),
    Unreadable(Seq<char>),
    Exhausted,
}

impl View for BatchEvent {
    type V = BatchEventModel;

    open spec fn view(&self) -> BatchEventModel {
        match *self {
            BatchEvent::Passed => BatchEventModel::Passed,
            BatchEvent::Violated(text) => BatchEventModel::Violated(text@),
            BatchEvent::Unreadable(text) => BatchEventModel::Unreadable(text@),
            BatchEvent::Exhausted => BatchEventModel::Exhausted,
        }
    }
}

/// The outcome of a task as the model has it.
pub type OutcomeModel = Result<(), FailureModel>;

/// What the outcome of a task stands for.
pub open spec fn outcome_model(outcome: Result<(), ValidationFailure>) -> OutcomeModel {
    match outcome {
        Ok(()) => Ok(()),
        Err(failure) => Err(failure@),
    }
}

/// What the outcomes of the tasks stand for, partition by partition.
pub open spec fn outcome_models(outcomes: Seq<Result<(), ValidationFailure>>) -> Seq<
    OutcomeModel,
> {
    Seq::new(outcomes.len(), |i: int| outcome_model(outcomes[i]))
}

/// Where a check of one partition stands after an event: `None` while it
/// goes on, else its outcome, which no later event changes.
pub open spec fn observed(check: Option<OutcomeModel>, event: BatchEventModel) -> Option<
    OutcomeModel,
> {
    match check {
        Some(outcome) => Some(outcome),
        None => match event {
            BatchEventModel::Passed => None,
            BatchEventModel::Violated(text) => Some(Err(FailureModel::Violation(text))),
            BatchEventModel::Unreadable(text) => Some(Err(FailureModel::Read(text))),
            BatchEventModel::Exhausted => Some(Ok(())),
        },
    }
}

/// Where a check of one partition stands after a run of events.
pub open spec fn observed_all(events: Seq<BatchEventModel>) -> Option<OutcomeModel>
    decreases events.len(),
{
    if events.len() == 0 {
        None
    } else {
        observed(observed_all(events.drop_last()), events.last())
    }
}

/// The check of one partition: batch after batch, until one fails or none
/// is left.
#[derive(Debug)]
pub struct PartitionCheck {
    outcome: Option<Result<(), ValidationFailure>>,
}

impl View for PartitionCheck {
    type V = Option<OutcomeModel>;

    closed spec fn view(&self) -> Option<OutcomeModel> {
        match self.outcome {
            Some(outcome) => Some(outcome_model(outcome)),
            None => None,
        }
    }
}

impl PartitionCheck {
    /// A check that has seen no batch yet.
    pub fn new() -> (check: Self)
        ensures
            check@ is None,
    {
        PartitionCheck { outcome: None }
    }

    /// Whether the task is to ask for another batch.
    pub fn wants_batch(&self) -> (wanted: bool)
        ensures
            wanted == (self@ is None),
    {
        self.outcome.is_none()
    }

    /// The check after `event`. Once the check has an outcome, it keeps it.
    pub fn observe(self, event: BatchEvent) -> (next: Self)
        ensures
            next@ == observed(self@, event@),
    {
        if self.outcome.is_some() {
            return self;
        }
        match event {
            BatchEvent::Passed => self,
            BatchEvent::Violated(text) => PartitionCheck {
                outcome: Some(Err(ValidationFailure::Violation(text))),
            },
            BatchEvent::Unreadable(text) => PartitionCheck {
                outcome: Some(Err(ValidationFailure::Read(text))),
            },
            BatchEvent::Exhausted => PartitionCheck { outcome: Some(Ok(())) },
        }
    }

    /// The outcome of the check, or `None` while batches are left to ask
    /// for.
    pub fn into_outcome(self) -> (outcome: Option<Result<(), ValidationFailure>>)
        ensures
            match outcome {
                Some(reached) => self@ == Some(outcome_model(reached)),
                None => self@ is None,
            },
    {
        self.outcome
    }
}

/// Whether a task ended without a result of its own.
pub open spec fn is_abort(outcome: OutcomeModel) -> bool {
    outcome matches Err(FailureModel::Aborted(_))
}

/// Whether the failure of partition `i` is the one that is reported: the
/// first task that ended without a result, or, where every task has a
/// result, the first that failed.
pub open spec fn decides(outcomes: Seq<OutcomeModel>, i: int) -> bool {
    &&& 0 <= i < outcomes.len()
    &&& outcomes[i] is Err
    &&& forall|j: int| 0 <= j < i ==> !is_abort(#[trigger] outcomes[j])
    &&& !is_abort(outcomes[i]) ==> {
        &&& forall|j: int| 0 <= j < i ==> #[trigger] outcomes[j] is Ok
        &&& forall|j: int| i < j < outcomes.len() ==> !is_abort(#[trigger] outcomes[j])
    }
}

/// What the outcomes of all tasks come to: success where every task
/// succeeded, else the failure of the partition that decides.
pub open spec fn verdict(outcomes: Seq<OutcomeModel>) -> OutcomeModel {
    if exists|i: int| decides(outcomes, i) {
        outcomes[choose|i: int| decides(outcomes, i)]
    } else {
        Ok(())
    }
}

/// At most one partition decides.
pub proof fn lemma_decides_once(outcomes: Seq<OutcomeModel>, i: int, j: int)
    requires
        decides(outcomes, i),
        decides(outcomes, j),
    ensures
        i == j,
{
    if i < j {
        assert(!is_abort(outcomes[i]));
        assert(outcomes[i] is Ok || is_abort(outcomes[j]));
    } else if j < i {
        assert(!is_abort(outcomes[j]));
        assert(outcomes[j] is Ok || is_abort(outcomes[i]));
    }
}

/// The verdict is the outcome of the partition that decides.
pub proof fn lemma_verdict_at(outcomes: Seq<OutcomeModel>, i: int)
    requires
        decides(outcomes, i),
    ensures
        verdict(outcomes) == outcomes[i],
        verdict(outcomes) is Err,
{
    lemma_decides_once(outcomes, i, choose|j: int| decides(outcomes, j));
}

/// The verdict is success exactly where every task succeeded.
pub proof fn lemma_verdict_ok(outcomes: Seq<OutcomeModel>)
    ensures
        verdict(outcomes) is Ok <==> forall|i: int|
            0 <= i < outcomes.len() ==> #[trigger] outcomes[i] is Ok,
{
    if exists|i: int| decides(outcomes, i) {
        let i = choose|i: int| decides(outcomes, i);
        assert(outcomes[i] is Err);
    } else if exists|i: int| 0 <= i < outcomes.len() && is_abort(#[trigger] outcomes[i]) {
        let i = first_where(outcomes, |o: OutcomeModel| is_abort(o));
        assert(decides(outcomes, i));
    } else if exists|i: int| 0 <= i < outcomes.len() && #[trigger] outcomes[i] is Err {
        let i = first_where(outcomes, |o: OutcomeModel| o is Err);
        assert(decides(outcomes, i));
    }
}

/// The first position of `outcomes` at which `wanted` holds.
proof fn first_where(outcomes: Seq<OutcomeModel>, wanted: spec_fn(OutcomeModel) -> bool) -> (i:
    int)
    requires
        exists|k: int| 0 <= k < outcomes.len() && wanted(#[trigger] outcomes[k]),
    ensures
        0 <= i < outcomes.len(),
        wanted(outcomes[i]),
        forall|j: int| 0 <= j < i ==> !wanted(#[trigger] outcomes[j]),
    decreases outcomes.len(),
{
    let k = choose|k: int| 0 <= k < outcomes.len() && wanted(#[trigger] outcomes[k]);
    if wanted(outcomes[0]) {
        0
    } else {
        let rest = outcomes.drop_first();
        assert(wanted(rest[k - 1]));
        let i = first_where(rest, wanted);
        assert forall|j: int| 0 <= j < i + 1 implies !wanted(#[trigger] outcomes[j]) by {
            if j > 0 {
                assert(!wanted(rest[j - 1]));
            }
        }
        i + 1
    }
}

/// Decides from the outcomes of the tasks, one for each partition and in
/// the order of the partitions, whether the table passed.
///
/// Every task has ended when this is asked: none is stopped because
/// another failed. Where several failed, a task that ended without a
/// result is reported before one that failed, and among equals the one of
/// the lowest partition.
pub fn aggregate(outcomes: &Vec<Result<(), ValidationFailure>>) -> (result: Result<
    (),
    ValidationFailure,
>)
    ensures
        outcome_model(result) == verdict(outcome_models(outcomes@)),
{
    let ghost models = outcome_models(outcomes@);
    let mut i: usize = 0;
    while i < outcomes.len()
        invariant
            i <= outcomes.len(),
            models == outcome_models(outcomes@),
            forall|j: int| 0 <= j < i ==> !is_abort(#[trigger] models[j]),
        decreases outcomes.len() - i,
    {
        if let Err(ValidationFailure::Aborted(text)) = &outcomes[i] {
            proof {
                assert(decides(models, i as int));
                lemma_verdict_at(models, i as int);
            }
            return Err(ValidationFailure::Aborted(text.clone()));
        }
        assert(!is_abort(models[i as int]));
        i += 1;
    }
    let mut i: usize = 0;
    while i < outcomes.len()
        invariant
            i <= outcomes.len(),
            models == outcome_models(outcomes@),
            forall|j: int| 0 <= j < outcomes.len() ==> !is_abort(#[trigger] models[j]),
            forall|j: int| 0 <= j < i ==> #[trigger] models[j] is Ok,
        decreases outcomes.len() - i,
    {
        if let Err(failure) = &outcomes[i] {
            proof {
                assert(decides(models, i as int));
                lemma_verdict_at(models, i as int);
            }
            return Err(failure.clone());
        }
        assert(models[i as int] is Ok);
        i += 1;
    }
    proof {
        lemma_verdict_ok(models);
    }
    Ok(())
}

} // verus!
