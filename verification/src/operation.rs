//! The operation as a machine of six stages.
//!
//! An operation is configured, validates the rows that the table holds,
//! plans what the table becomes, commits the plan to the log, and is done.
//! A failure at any stage ends it: nothing is tried again, and the table
//! stays as it was.
//!
//! The machine decides; it does not read rows or write the log. After each
//! step it names the work that its stage waits for. The caller does that
//! work and reports the outcome as the next event.

use crate::clock::now_millis;
use crate::commit::{
    commit_actions, commit_actions_for, commit_info, commit_info_for, conclude, concluded, Action,
    ActionModel, CommitInfoModel, CommitReply, ReplyModel,
};
use crate::constraint::{key_of, registered, row_check, Constraint};
use crate::error::{ConstraintError, ErrorModel, FailureModel, ValidationFailure};
use crate::merge::{latest_metadata, latest_protocol, update_of, UpdateModel};
use crate::planner::{at_least, plan_constraint, planned, raised, registering};
use crate::table::{MetadataModel, ProtocolModel, SnapshotModel, TableSnapshot};
use crate::validator::{aggregate, outcome_models, verdict, OutcomeModel};
use vstd::prelude::*;

verus! {

/// The stages of an operation.
#[derive(Clone, Copy, Debug, PartialEq, Eq, Structural)]
pub enum Stage {
    Configuring,
    Validating,
    Planning,
    Committing,
    Done,
    Failed,
}

/// The work that an operation waits for.
#[derive(Clone, Copy, Debug, PartialEq, Eq, Structural)]
pub enum Directive {
    /// Nothing outside: report [`Event::Continue`].
    Continue,
    /// Check every row of the table against the predicate, and report
    /// [`Event::Validated`] or [`Event::ScanFailed`].
    Validate,
    /// Commit the entries to the log, and report [`Event::Replied`].
    Commit,
    /// Nothing: the operation has ended.
    Stop,
}

/// What the caller reports to an operation.
#[derive(Debug)]
pub enum Event {
    /// The operation may go on by itself.
    Continue,
    /// The scan of the table could not be set up, so no row was checked.
    ScanFailed(String),
    /// Every partition of the table was checked by a task, and all tasks
    /// have ended with these outcomes, in the order of the partitions.
    Validated(Vec<Result<(), ValidationFailure>>),
    /// The log has answered the commit.
    Replied(CommitReply),
}

/// What an [`Event`] stands for.
pub enum EventModel {
    Continue,
    ScanFailed(Seq<char>),
    Validated(Seq<OutcomeModel>),
    Replied(ReplyModel),
}

impl View for Event {
    type V = EventModel;

    open spec fn view(&self) -> EventModel {
        match *self {
            Event::Continue => EventModel::Continue,
            Event::ScanFailed(text) => EventModel::ScanFailed(text@),
            Event::Validated(outcomes) => EventModel::Validated(outcome_models(outcomes@)),
            Event::Replied(reply) => EventModel::Replied(reply@),
        }
    }
}

/// An operation that adds a constraint to a table, at one of its stages.
///
/// An operation starts as [`Operation::new`] makes it and changes only by
/// its steps, so it is always where [`on_course`] says it can be. Until it
/// is done it holds the snapshot that it was started on, unchanged. When it
/// is done it holds the table's new snapshot.
pub struct Operation {
    progress: Progress,
    origin: Ghost<Origin>,
}

/// Where an operation stands, with what it holds there.
#[derive(Debug)]
#[allow(inconsistent_fields)]
enum Progress {
    /// The name and the predicate are being collected.
    Configuring { snapshot: TableSnapshot, name: Option<String>, expr: Option<String> },
    /// The rows of the table are being checked against the predicate.
    Validating { snapshot: TableSnapshot, name: String, expr: String },
    /// Every row satisfies the predicate; the new table is to be planned.
    Planning { snapshot: TableSnapshot, name: String, expr: String },
    /// The plan is with the log.
    Committing { snapshot: TableSnapshot, actions: Vec<Action> },
    /// The constraint is part of the table.
    Done { snapshot: TableSnapshot },
    /// The operation has ended without changing the table.
    Failed { snapshot: TableSnapshot, error: ConstraintError },
}

/// What an [`Operation`] stands for: its stage, with what it holds there.
#[verifier::ext_equal]
#[allow(inconsistent_fields)]
pub enum OperationModel {
    Configuring { snapshot: SnapshotModel, name: Option<Seq<char>>, expr: Option<Seq<char>> },
    Validating { snapshot: SnapshotModel, name: Seq<char>, expr: Seq<char> },
    Planning { snapshot: SnapshotModel, name: Seq<char>, expr: Seq<char> },
    Committing { snapshot: SnapshotModel, actions: Seq<ActionModel> },
    Done { snapshot: SnapshotModel },
    Failed { snapshot: SnapshotModel, error: ErrorModel },
}

impl View for Operation {
    type V = OperationModel;

    closed spec fn view(&self) -> OperationModel {
        match self.progress {
            Progress::Configuring { snapshot, name, expr } => OperationModel::Configuring {
                snapshot: snapshot@,
                name: name.deep_view(),
                expr: expr.deep_view(),
            },
            Progress::Validating { snapshot, name, expr } => OperationModel::Validating {
                snapshot: snapshot@,
                name: name@,
                expr: expr@,
            },
            Progress::Planning { snapshot, name, expr } => OperationModel::Planning {
                snapshot: snapshot@,
                name: name@,
                expr: expr@,
            },
            Progress::Committing { snapshot, actions } => OperationModel::Committing {
                snapshot: snapshot@,
                actions: actions.deep_view(),
            },
            Progress::Done { snapshot } => OperationModel::Done { snapshot: snapshot@ },
            Progress::Failed { snapshot, error } => OperationModel::Failed {
                snapshot: snapshot@,
                error: error@,
            },
        }
    }
}

impl OperationModel {
    /// The stage of the operation.
    pub open spec fn stage(self) -> Stage {
        match self {
            OperationModel::Configuring { .. } => Stage::Configuring,
            OperationModel::Validating { .. } => Stage::Validating,
            OperationModel::Planning { .. } => Stage::Planning,
            OperationModel::Committing { .. } => Stage::Committing,
            OperationModel::Done { .. } => Stage::Done,
            OperationModel::Failed { .. } => Stage::Failed,
        }
    }

    /// The snapshot that the operation holds.
    pub open spec fn snapshot(self) -> SnapshotModel {
        match self {
            OperationModel::Configuring { snapshot, .. } => snapshot,
            OperationModel::Validating { snapshot, .. } => snapshot,
            OperationModel::Planning { snapshot, .. } => snapshot,
            OperationModel::Committing { snapshot, .. } => snapshot,
            OperationModel::Done { snapshot } => snapshot,
            OperationModel::Failed { snapshot, .. } => snapshot,
        }
    }

    /// The work that the operation waits for.
    pub open spec fn directive(self) -> Directive {
        match self {
            OperationModel::Configuring { .. } => Directive::Continue,
            OperationModel::Validating { .. } => Directive::Validate,
            OperationModel::Planning { .. } => Directive::Continue,
            OperationModel::Committing { .. } => Directive::Commit,
            OperationModel::Done { .. } => Directive::Stop,
            OperationModel::Failed { .. } => Directive::Stop,
        }
    }

    /// The time that the commit of the operation records, where the
    /// operation is with the log; else zero.
    pub open spec fn commit_time(self) -> int {
        match self {
            OperationModel::Committing { actions, .. } => if actions.len() > 0 {
                match actions[0] {
                    ActionModel::CommitInfo(info) => info.timestamp,
                    _ => 0,
                }
            } else {
                0
            },
            _ => 0,
        }
    }
}

/// The operation after an event, where the clock shows `now`.
///
/// Each stage waits for one kind of event, and any other event leaves the
/// operation as it is. An operation that is done or has failed stays so.
///
/// * Configuring: without a name, or else without an expression, the
///   operation fails; with both it goes on to validate.
/// * Validating: the operation fails where the scan could not be set up or
///   where the verdict on the tasks' outcomes is a failure; else it goes on
///   to plan.
/// * Planning: the operation fails where the name is taken; else it holds
///   the entries to commit, which record `now` and the version that the
///   rows were read at.
/// * Committing: the operation is done with the snapshot that the commit
///   makes of the table, or fails as the log says.
pub open spec fn next(op: OperationModel, event: EventModel, now: int) -> OperationModel {
    match op {
        OperationModel::Configuring { snapshot, name, expr } => match event {
            EventModel::Continue => match name {
                None => OperationModel::Failed { snapshot, error: ErrorModel::MissingName },
                Some(name) => match expr {
                    None => OperationModel::Failed {
                        snapshot,
                        error: ErrorModel::MissingExpression,
                    },
                    Some(expr) => OperationModel::Validating { snapshot, name, expr },
                },
            },
            _ => op,
        },
        OperationModel::Validating { snapshot, name, expr } => match event {
            EventModel::ScanFailed(text) => OperationModel::Failed {
                snapshot,
                error: ErrorModel::Validation(FailureModel::Scan(text)),
            },
            EventModel::Validated(outcomes) => match verdict(outcomes) {
                Ok(_) => OperationModel::Planning { snapshot, name, expr },
                Err(failure) => OperationModel::Failed {
                    snapshot,
                    error: ErrorModel::Validation(failure),
                },
            },
            _ => op,
        },
        OperationModel::Planning { snapshot, name, expr } => match event {
            EventModel::Continue => match planned(
                snapshot.metadata,
                snapshot.protocol,
                name,
                expr,
            ) {
                Ok((metadata, protocol)) => OperationModel::Committing {
                    snapshot,
                    actions: commit_actions_for(
                        commit_info_for(name, expr, snapshot.version, now),
                        metadata,
                        protocol,
                    ),
                },
                Err(error) => OperationModel::Failed { snapshot, error },
            },
            _ => op,
        },
        OperationModel::Committing { snapshot, actions } => match event {
            EventModel::Replied(reply) => match concluded(snapshot, actions, reply) {
                Ok(committed) => OperationModel::Done { snapshot: committed },
                Err(error) => OperationModel::Failed { snapshot, error },
            },
            _ => op,
        },
        OperationModel::Done { .. } => op,
        OperationModel::Failed { .. } => op,
    }
}

/// What an operation was started with: the snapshot of the table, and the
/// name and the predicate as far as they were given.
pub struct Origin {
    pub snapshot: SnapshotModel,
    pub name: Option<Seq<char>>,
    pub expr: Option<Seq<char>>,
}

/// Whether `snapshot` has a constraint of this name.
pub open spec fn taken(snapshot: SnapshotModel, name: Seq<char>) -> bool {
    snapshot.metadata.configuration.contains_key(key_of(name))
}

/// The snapshot that a commit at `version` makes of `base` when it
/// registers `expr` under `name`: the version of the commit, the predicate
/// among the settings, the raised protocol, and all else as it was.
pub open spec fn constrained(
    base: SnapshotModel,
    name: Seq<char>,
    expr: Seq<char>,
    version: int,
) -> SnapshotModel {
    SnapshotModel {
        version: at_least(base.version, version),
        metadata: registering(base.metadata, name, expr),
        protocol: raised(base.protocol),
        files: base.files,
    }
}

/// Whether `op` is where an operation that was configured on `base` with
/// `name` and `expr` can be: before its end it holds `base` unchanged, with
/// the log it holds the entries that the plan asks for, and at its end it
/// holds either `base` or `base` with the constraint.
pub open spec fn on_course(
    base: SnapshotModel,
    name: Option<Seq<char>>,
    expr: Option<Seq<char>>,
    op: OperationModel,
) -> bool {
    match op {
        OperationModel::Configuring { snapshot, name: held, expr: text } => snapshot == base
            && held == name && text == expr,
        OperationModel::Validating { snapshot, name: held, expr: text } => snapshot == base
            && name == Some(held) && expr == Some(text),
        OperationModel::Planning { snapshot, name: held, expr: text } => snapshot == base && name
            == Some(held) && expr == Some(text),
        OperationModel::Committing { snapshot, actions } => {
            &&& snapshot == base
            &&& name is Some
            &&& expr is Some
            &&& !taken(base, name.unwrap())
            &&& actions == commit_actions_for(
                commit_info_for(name.unwrap(), expr.unwrap(), base.version, op.commit_time()),
                registering(base.metadata, name.unwrap(), expr.unwrap()),
                raised(base.protocol),
            )
        },
        OperationModel::Done { snapshot } => {
            &&& name is Some
            &&& expr is Some
            &&& !taken(base, name.unwrap())
            &&& exists|version: int|
                snapshot == #[trigger] constrained(base, name.unwrap(), expr.unwrap(), version)
        },
        OperationModel::Failed { snapshot, .. } => snapshot == base,
    }
}

/// What the three entries of a commit change in a table: the metadata and
/// the protocol that they hold.
pub proof fn lemma_update_of_commit(
    info: CommitInfoModel,
    metadata: MetadataModel,
    protocol: ProtocolModel,
    version: int,
)
    ensures
        update_of(commit_actions_for(info, metadata, protocol), version) == (UpdateModel {
            version,
            metadata: Some(metadata),
            protocol: Some(protocol),
            files: Seq::empty(),
        }),
{
    let actions = commit_actions_for(info, metadata, protocol);
    let shorter = actions.drop_last();
    assert(shorter.last() == actions[1]);
    assert(latest_metadata(shorter) == Some(metadata));
    assert(latest_metadata(actions) == Some(metadata));
    assert(latest_protocol(actions) == Some(protocol));
}

/// A step keeps an operation on its course.
pub proof fn lemma_step_on_course(
    base: SnapshotModel,
    name: Option<Seq<char>>,
    expr: Option<Seq<char>>,
    op: OperationModel,
    event: EventModel,
    now: int,
)
    requires
        on_course(base, name, expr, op),
    ensures
        on_course(base, name, expr, next(op, event, now)),
{
    let stepped = next(op, event, now);
    match op {
        OperationModel::Committing { snapshot, actions } => {
            if let EventModel::Replied(ReplyModel::Committed(version)) = event {
                let held = name.unwrap();
                let text = expr.unwrap();
                lemma_update_of_commit(
                    commit_info_for(held, text, base.version, op.commit_time()),
                    registering(base.metadata, held, text),
                    raised(base.protocol),
                    version,
                );
                let reached = stepped->Done_snapshot;
                let wanted = constrained(base, held, text, version);
                assert(reached.metadata.configuration =~= wanted.metadata.configuration);
                assert(reached.files =~= wanted.files);
                assert(reached =~= wanted);
            }
        },
        OperationModel::Planning { .. } => {
            if stepped is Committing {
                assert(stepped.commit_time() == now);
            }
        },
        _ => {},
    }
}

impl Operation {
    #[verifier::type_invariant]
    spec fn is_on_course(&self) -> bool {
        on_course(self.origin@.snapshot, self.origin@.name, self.origin@.expr, self@)
    }

    /// What the operation was started with. No step changes it.
    pub closed spec fn origin(&self) -> Origin {
        self.origin@
    }

    /// Whether the operation is where one that was started as this one can
    /// be. Every operation is.
    pub open spec fn keeps_course(&self) -> bool {
        on_course(self.origin().snapshot, self.origin().name, self.origin().expr, self@)
    }

    /// An operation on `snapshot` that is being configured.
    pub fn new(snapshot: TableSnapshot, name: Option<String>, expr: Option<String>) -> (op: Self)
        ensures
            op@ == (OperationModel::Configuring {
                snapshot: snapshot@,
                name: name.deep_view(),
                expr: expr.deep_view(),
            }),
            op.origin() == (Origin {
                snapshot: snapshot@,
                name: name.deep_view(),
                expr: expr.deep_view(),
            }),
    {
        let ghost origin = Origin {
            snapshot: snapshot@,
            name: name.deep_view(),
            expr: expr.deep_view(),
        };
        Operation { progress: Progress::Configuring { snapshot, name, expr }, origin: Ghost(origin) }
    }

    /// The stage of the operation.
    pub fn stage(&self) -> (stage: Stage)
        ensures
            stage == self@.stage(),
    {
        match &self.progress {
            Progress::Configuring { .. } => Stage::Configuring,
            Progress::Validating { .. } => Stage::Validating,
            Progress::Planning { .. } => Stage::Planning,
            Progress::Committing { .. } => Stage::Committing,
            Progress::Done { .. } => Stage::Done,
            Progress::Failed { .. } => Stage::Failed,
        }
    }

    /// The work that the operation waits for.
    pub fn directive(&self) -> (directive: Directive)
        ensures
            directive == self@.directive(),
    {
        match &self.progress {
            Progress::Configuring { .. } => Directive::Continue,
            Progress::Validating { .. } => Directive::Validate,
            Progress::Planning { .. } => Directive::Continue,
            Progress::Committing { .. } => Directive::Commit,
            Progress::Done { .. } => Directive::Stop,
            Progress::Failed { .. } => Directive::Stop,
        }
    }

    /// The snapshot that the operation holds: the table's new snapshot
    /// when the operation is done, else the one that it was started on.
    pub fn snapshot(&self) -> (snapshot: &TableSnapshot)
        ensures
            snapshot@ == self@.snapshot(),
            self.keeps_course(),
            !(self@ is Done) ==> snapshot@ == self.origin().snapshot,
    {
        proof {
            use_type_invariant(self);
        }
        match &self.progress {
            Progress::Configuring { snapshot, .. } => snapshot,
            Progress::Validating { snapshot, .. } => snapshot,
            Progress::Planning { snapshot, .. } => snapshot,
            Progress::Committing { snapshot, .. } => snapshot,
            Progress::Done { snapshot } => snapshot,
            Progress::Failed { snapshot, .. } => snapshot,
        }
    }

    /// While the operation validates: the constraint that every row of the
    /// table is to be checked against, which is the predicate aimed at
    /// whole rows.
    pub fn row_check(&self) -> (check: Option<Constraint>)
        ensures
            match self@ {
                OperationModel::Validating { expr, .. } => check.deep_view() == Some(
                    row_check(expr),
                ),
                _ => check is None,
            },
    {
        match &self.progress {
            Progress::Validating { expr, .. } => Some(Constraint::new("*", expr.as_str())),
            _ => None,
        }
    }

    /// While the operation commits: the entries for the log, in order.
    pub fn actions(&self) -> (actions: Option<&Vec<Action>>)
        ensures
            match self@ {
                OperationModel::Committing { actions: entries, .. } => actions matches Some(held)
                    && held.deep_view() == entries,
                _ => actions is None,
            },
            self.keeps_course(),
    {
        proof {
            use_type_invariant(self);
        }
        match &self.progress {
            Progress::Committing { actions, .. } => Some(actions),
            _ => None,
        }
    }

    /// Why the operation failed, where it did.
    pub fn error(&self) -> (error: Option<&ConstraintError>)
        ensures
            match self@ {
                OperationModel::Failed { error: reason, .. } => error matches Some(held) && held@
                    == reason,
                _ => error is None,
            },
    {
        match &self.progress {
            Progress::Failed { error, .. } => Some(error),
            _ => None,
        }
    }

    /// The result of an operation that has ended: the table's new snapshot
    /// or the error. `None` while the operation has not ended.
    pub fn into_result(self) -> (result: Option<Result<TableSnapshot, ConstraintError>>)
        ensures
            match self@ {
                OperationModel::Done { snapshot } => result matches Some(Ok(held)) && held@
                    == snapshot,
                OperationModel::Failed { error, .. } => result matches Some(Err(held)) && held@
                    == error,
                _ => result is None,
            },
            self.keeps_course(),
            result matches Some(Ok(held)) ==> {
                &&& self.origin().name is Some
                &&& self.origin().expr is Some
                &&& registered(held@.metadata, self.origin().name.unwrap()) == self.origin().expr
                &&& held@.metadata == registering(
                    self.origin().snapshot.metadata,
                    self.origin().name.unwrap(),
                    self.origin().expr.unwrap(),
                )
                &&& held@.protocol == raised(self.origin().snapshot.protocol)
                &&& held@.version >= self.origin().snapshot.version
                &&& held@.files == self.origin().snapshot.files
            },
    {
        proof {
            use_type_invariant(&self);
        }
        match self.progress {
            Progress::Done { snapshot } => Some(Ok(snapshot)),
            Progress::Failed { error, .. } => Some(Err(error)),
            _ => None,
        }
    }

    /// The operation after `event`, and the work that it then waits for,
    /// where the clock shows `now`.
    pub fn step_at(self, event: Event, now: i64) -> (out: (Operation, Directive))
        ensures
            out.0@ == next(self@, event@, now as int),
            out.0.origin() == self.origin(),
            out.1 == out.0@.directive(),
    {
        let ghost origin = self.origin@;
        proof {
            use_type_invariant(&self);
            lemma_step_on_course(
                origin.snapshot,
                origin.name,
                origin.expr,
                self@,
                event@,
                now as int,
            );
        }
        let progress = match self.progress {
            Progress::Configuring { snapshot, name, expr } => match event {
                Event::Continue => match name {
                    None => Progress::Failed { snapshot, error: ConstraintError::MissingName },
                    Some(name) => match expr {
                        None => Progress::Failed {
                            snapshot,
                            error: ConstraintError::MissingExpression,
                        },
                        Some(expr) => Progress::Validating { snapshot, name, expr },
                    },
                },
                _ => Progress::Configuring { snapshot, name, expr },
            },
            Progress::Validating { snapshot, name, expr } => match event {
                Event::ScanFailed(text) => Progress::Failed {
                    snapshot,
                    error: ConstraintError::Validation(ValidationFailure::Scan(text)),
                },
                Event::Validated(outcomes) => match aggregate(&outcomes) {
                    Ok(_) => Progress::Planning { snapshot, name, expr },
                    Err(failure) => Progress::Failed {
                        snapshot,
                        error: ConstraintError::Validation(failure),
                    },
                },
                _ => Progress::Validating { snapshot, name, expr },
            },
            Progress::Planning { snapshot, name, expr } => match event {
                Event::Continue => match plan_constraint(
                    snapshot.metadata(),
                    snapshot.protocol(),
                    name.as_str(),
                    expr.as_str(),
                ) {
                    Ok((metadata, protocol)) => {
                        let info = commit_info(
                            name.as_str(),
                            expr.as_str(),
                            snapshot.version(),
                            now,
                        );
                        let actions = commit_actions(info, metadata, protocol);
                        Progress::Committing { snapshot, actions }
                    },
                    Err(error) => Progress::Failed { snapshot, error },
                },
                _ => Progress::Planning { snapshot, name, expr },
            },
            Progress::Committing { snapshot, actions } => match event {
                Event::Replied(reply) => match conclude(&snapshot, &actions, reply) {
                    Ok(committed) => Progress::Done { snapshot: committed },
                    Err(error) => Progress::Failed { snapshot, error },
                },
                _ => Progress::Committing { snapshot, actions },
            },
            Progress::Done { snapshot } => Progress::Done { snapshot },
            Progress::Failed { snapshot, error } => Progress::Failed { snapshot, error },
        };
        let after = Operation { progress, origin: Ghost(origin) };
        let directive = after.directive();
        (after, directive)
    }

    /// The operation after `event`, and the work that it then waits for.
    ///
    /// The clock is read where a plan is turned into a commit, and nowhere
    /// else: the step is the one that [`next`] gives for the time that the
    /// commit records.
    pub fn step(self, event: Event) -> (out: (Operation, Directive))
        ensures
            out.0@ == next(self@, event@, out.0@.commit_time()),
            out.0.origin() == self.origin(),
            out.1 == out.0@.directive(),
    {
        let planning = match (&self.progress, &event) {
            (Progress::Planning { .. }, Event::Continue) => true,
            _ => false,
        };
        let now = if planning {
            now_millis()
        } else {
            0
        };
        self.step_at(event, now)
    }
}

} // verus!
