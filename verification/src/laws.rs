//! What the operation guarantees, whatever the caller reports.
//!
//! The laws are stated over the models of the library's types. They hold
//! of every run, because an [`Operation`] starts at its first stage and
//! each of its steps is a step of [`next`].
//!
//! [`Operation`]: crate::operation::Operation

use crate::commit::{commit_actions_for, commit_info_for, ReplyModel};
use crate::constraint::registered;
use crate::error::{ErrorKind, ErrorModel, FailureModel};
use crate::operation::{
    constrained, lemma_step_on_course, lemma_update_of_commit, next, on_course, taken, EventModel,
    OperationModel,
};
use crate::planner::{
    at_least, raised, registering, MIN_READER_VERSION, MIN_WRITER_VERSION,
};
use crate::table::SnapshotModel;
use crate::validator::{
    lemma_verdict_ok, observed, observed_all, verdict, BatchEventModel, OutcomeModel,
};
use vstd::prelude::*;

verus! {

/// What the caller reports in one step: an event, and the time that the
/// clock shows while the step is made.
pub struct Report {
    pub event: EventModel,
    pub now: int,
}

/// The operation after a run of reports, each answered by one step.
pub open spec fn after(op: OperationModel, reports: Seq<Report>) -> OperationModel
    decreases reports.len(),
{
    if reports.len() == 0 {
        op
    } else {
        next(after(op, reports.drop_last()), reports.last().event, reports.last().now)
    }
}

/// The operation after the four steps of a run in which every event comes
/// when it is waited for: the start, the outcomes of the tasks, the plan,
/// and the answer of the log.
pub open spec fn run(
    start: OperationModel,
    outcomes: Seq<OutcomeModel>,
    now: int,
    reply: ReplyModel,
) -> OperationModel {
    let validating = next(start, EventModel::Continue, now);
    let planning = next(validating, EventModel::Validated(outcomes), now);
    let committing = next(planning, EventModel::Continue, now);
    next(committing, EventModel::Replied(reply), now)
}

/// An operation that is configured on `snapshot` with this name and this
/// predicate.
pub open spec fn configured(snapshot: SnapshotModel, name: Seq<char>, expr: Seq<char>)
    -> OperationModel {
    OperationModel::Configuring { snapshot, name: Some(name), expr: Some(expr) }
}

/// A run of steps keeps an operation on its course.
pub proof fn lemma_run_on_course(
    base: SnapshotModel,
    name: Option<Seq<char>>,
    expr: Option<Seq<char>>,
    op: OperationModel,
    reports: Seq<Report>,
)
    requires
        on_course(base, name, expr, op),
    ensures
        on_course(base, name, expr, after(op, reports)),
    decreases reports.len(),
{
    if reports.len() > 0 {
        lemma_run_on_course(base, name, expr, op, reports.drop_last());
        lemma_step_on_course(
            base,
            name,
            expr,
            after(op, reports.drop_last()),
            reports.last().event,
            reports.last().now,
        );
    }
}

/// A name is registered once. Where the table has a constraint of the
/// name, an operation whose rows all passed fails with a conflict when it
/// plans, whatever its predicate, and the table stays as it was.
pub proof fn taken_name_conflicts(
    snapshot: SnapshotModel,
    name: Seq<char>,
    expr: Seq<char>,
    outcomes: Seq<OutcomeModel>,
    now: int,
    reply: ReplyModel,
)
    requires
        taken(snapshot, name),
        forall|i: int| 0 <= i < outcomes.len() ==> #[trigger] outcomes[i] is Ok,
    ensures
        next(OperationModel::Planning { snapshot, name, expr }, EventModel::Continue, now) == (
        OperationModel::Failed { snapshot, error: ErrorModel::ConstraintExists { name, expr } }),
        run(configured(snapshot, name, expr), outcomes, now, reply) == (OperationModel::Failed {
            snapshot,
            error: ErrorModel::ConstraintExists { name, expr },
        }),
        (ErrorModel::ConstraintExists { name, expr }).kind() == ErrorKind::Conflict,
{
    lemma_verdict_ok(outcomes);
}

/// A name that is taken is never registered again. Whatever is reported
/// to an operation on a table that has a constraint of the name, and in
/// whatever order: the operation is never done, and it holds the snapshot
/// that it was started on.
pub proof fn taken_name_never_added(
    base: SnapshotModel,
    name: Seq<char>,
    expr: Option<Seq<char>>,
    reports: Seq<Report>,
)
    requires
        taken(base, name),
    ensures
        !(after(OperationModel::Configuring { snapshot: base, name: Some(name), expr }, reports)
            is Done),
        after(
            OperationModel::Configuring { snapshot: base, name: Some(name), expr },
            reports,
        ).snapshot() == base,
{
    lemma_run_on_course(
        base,
        Some(name),
        expr,
        OperationModel::Configuring { snapshot: base, name: Some(name), expr },
        reports,
    );
}

/// No constraint is registered that a row is known to break, or whose
/// check did not end well. Where the task of any partition failed, the
/// operation fails with what the verdict on the tasks reports, which is an
/// error of validation; nothing is planned or committed, and the table
/// stays as it was.
pub proof fn failed_rows_fail(
    snapshot: SnapshotModel,
    name: Seq<char>,
    expr: Seq<char>,
    outcomes: Seq<OutcomeModel>,
    failing: int,
    now: int,
    reply: ReplyModel,
)
    requires
        0 <= failing < outcomes.len(),
        outcomes[failing] is Err,
    ensures
        verdict(outcomes) is Err,
        run(configured(snapshot, name, expr), outcomes, now, reply) == (OperationModel::Failed {
            snapshot,
            error: ErrorModel::Validation(verdict(outcomes)->Err_0),
        }),
        ErrorModel::Validation(verdict(outcomes)->Err_0).kind() == ErrorKind::Validation,
{
    lemma_verdict_ok(outcomes);
}

/// The check of a partition fails at the first batch that fails, and asks
/// for no batch after it: where the batches before `first` passed and the
/// batch at `first` held a row that breaks the predicate, or could not be
/// read, the outcome is that failure, whatever is reported later.
pub proof fn first_failure_ends_check(events: Seq<BatchEventModel>, first: int)
    requires
        0 <= first < events.len(),
        forall|i: int| 0 <= i < first ==> #[trigger] events[i] is Passed,
        events[first] is Violated || events[first] is Unreadable,
    ensures
        observed_all(events) == observed(None, events[first]),
        observed_all(events) matches Some(Err(failure)) && (events[first] is Violated
            ==> failure is Violation),
    decreases events.len(),
{
    let shorter = events.drop_last();
    if first < events.len() - 1 {
        assert forall|i: int| 0 <= i < first implies #[trigger] shorter[i] is Passed by {
            assert(events[i] is Passed);
        }
        first_failure_ends_check(shorter, first);
    } else {
        lemma_passing_goes_on(shorter);
    }
}

/// The check of a partition goes on while its batches pass.
pub proof fn lemma_passing_goes_on(events: Seq<BatchEventModel>)
    requires
        forall|i: int| 0 <= i < events.len() ==> #[trigger] events[i] is Passed,
    ensures
        observed_all(events) is None,
    decreases events.len(),
{
    if events.len() > 0 {
        let shorter = events.drop_last();
        assert forall|i: int| 0 <= i < shorter.len() implies #[trigger] shorter[i] is Passed by {
            assert(events[i] is Passed);
        }
        lemma_passing_goes_on(shorter);
    }
}

/// The check of a partition succeeds where every batch passed until the
/// partition had no more.
pub proof fn passing_rows_pass_check(events: Seq<BatchEventModel>, end: int)
    requires
        0 <= end < events.len(),
        forall|i: int| 0 <= i < end ==> #[trigger] events[i] is Passed,
        events[end] is Exhausted,
    ensures
        observed_all(events) == Some(Ok::<(), FailureModel>(())),
    decreases events.len(),
{
    let shorter = events.drop_last();
    if end < events.len() - 1 {
        assert forall|i: int| 0 <= i < end implies #[trigger] shorter[i] is Passed by {
            assert(events[i] is Passed);
        }
        passing_rows_pass_check(shorter, end);
    } else {
        lemma_passing_goes_on(shorter);
    }
}

/// A constraint that every row satisfies is added. Where every task
/// succeeded, the name is free and the log took the commit as its version
/// `version`, the operation is done, and the table is as it was but for
/// three things: it is at the version of the commit, it registers the
/// predicate under the name, as it was given, and its protocol is raised.
/// Where the log took the commit as the next version, the table's version
/// has grown by one.
pub proof fn valid_rows_succeed(
    snapshot: SnapshotModel,
    name: Seq<char>,
    expr: Seq<char>,
    outcomes: Seq<OutcomeModel>,
    now: int,
    version: int,
)
    requires
        !taken(snapshot, name),
        forall|i: int| 0 <= i < outcomes.len() ==> #[trigger] outcomes[i] is Ok,
    ensures
        run(configured(snapshot, name, expr), outcomes, now, ReplyModel::Committed(version))
            == (OperationModel::Done { snapshot: constrained(snapshot, name, expr, version) }),
        registered(constrained(snapshot, name, expr, version).metadata, name) == Some(expr),
        version == snapshot.version + 1 ==> constrained(snapshot, name, expr, version).version
            == snapshot.version + 1,
{
    lemma_verdict_ok(outcomes);
    let start = configured(snapshot, name, expr);
    let planning = OperationModel::Planning { snapshot, name, expr };
    assert(next(next(start, EventModel::Continue, now), EventModel::Validated(outcomes), now)
        == planning);
    let committing = next(planning, EventModel::Continue, now);
    assert(on_course(snapshot, Some(name), Some(expr), planning));
    lemma_step_on_course(snapshot, Some(name), Some(expr), planning, EventModel::Continue, now);
    lemma_update_of_commit(
        commit_info_for(name, expr, snapshot.version, now),
        registering(snapshot.metadata, name, expr),
        raised(snapshot.protocol),
        version,
    );
    let reached = next(committing, EventModel::Replied(ReplyModel::Committed(version)), now);
    let wanted = constrained(snapshot, name, expr, version);
    assert(reached->Done_snapshot.metadata.configuration =~= wanted.metadata.configuration);
    assert(reached->Done_snapshot.files =~= wanted.files);
    assert(reached->Done_snapshot =~= wanted);
}

/// A commit never lowers the protocol. Whatever is reported to an
/// operation, and in whatever order: where it is done, neither version of
/// the table's protocol is lower than it was, the reader's version is at
/// least the floor for readers and the writer's at least the floor for
/// writers, and the features are as they were.
pub proof fn protocol_never_lowered(
    base: SnapshotModel,
    name: Option<Seq<char>>,
    expr: Option<Seq<char>>,
    reports: Seq<Report>,
)
    requires
        after(OperationModel::Configuring { snapshot: base, name, expr }, reports) is Done,
    ensures
        ({
            let old = base.protocol;
            let new = after(
                OperationModel::Configuring { snapshot: base, name, expr },
                reports,
            ).snapshot().protocol;
            &&& new == raised(old)
            &&& new.min_reader_version >= at_least(
                old.min_reader_version,
                MIN_READER_VERSION as int,
            )
            &&& new.min_writer_version >= at_least(
                old.min_writer_version,
                MIN_WRITER_VERSION as int,
            )
            &&& new.min_reader_version >= old.min_reader_version
            &&& new.min_writer_version >= old.min_writer_version
        }),
{
    lemma_run_on_course(
        base,
        name,
        expr,
        OperationModel::Configuring { snapshot: base, name, expr },
        reports,
    );
}

/// A constraint that was added is in force. Whatever is reported to an
/// operation, and in whatever order: where it is done, the table registers
/// the predicate under the name, every other setting is as it was, the
/// table's version has not gone back, and every writer that the protocol
/// admits enforces constraints.
pub proof fn success_registers(
    base: SnapshotModel,
    name: Option<Seq<char>>,
    expr: Option<Seq<char>>,
    reports: Seq<Report>,
)
    requires
        after(OperationModel::Configuring { snapshot: base, name, expr }, reports) is Done,
    ensures
        ({
            let done = after(
                OperationModel::Configuring { snapshot: base, name, expr },
                reports,
            ).snapshot();
            &&& name is Some
            &&& expr is Some
            &&& !taken(base, name.unwrap())
            &&& registered(done.metadata, name.unwrap()) == expr
            &&& done.metadata == registering(base.metadata, name.unwrap(), expr.unwrap())
            &&& done.version >= base.version
            &&& done.protocol.min_writer_version >= MIN_WRITER_VERSION
            &&& done.files == base.files
        }),
{
    lemma_run_on_course(
        base,
        name,
        expr,
        OperationModel::Configuring { snapshot: base, name, expr },
        reports,
    );
}

/// An operation changes the table at once or not at all. Whatever is
/// reported to an operation, and in whatever order: until it is done it
/// holds the snapshot that it was started on, unchanged, and that is what
/// it holds when it has failed.
pub proof fn failure_changes_nothing(
    base: SnapshotModel,
    name: Option<Seq<char>>,
    expr: Option<Seq<char>>,
    reports: Seq<Report>,
)
    ensures
        !(after(OperationModel::Configuring { snapshot: base, name, expr }, reports) is Done)
            ==> after(
            OperationModel::Configuring { snapshot: base, name, expr },
            reports,
        ).snapshot() == base,
{
    lemma_run_on_course(
        base,
        name,
        expr,
        OperationModel::Configuring { snapshot: base, name, expr },
        reports,
    );
}

/// An operation that has ended stays as it is: nothing is tried again.
pub proof fn ended_stays(op: OperationModel, event: EventModel, now: int)
    requires
        op is Done || op is Failed,
    ensures
        next(op, event, now) == op,
{
}

/// The entries that go to the log say what the commit rests on. Whatever
/// is reported to an operation, and in whatever order: while it is with
/// the log, its entries are the commit's account of itself, the new
/// metadata and the new protocol, in this order, and the account names the
/// version that the rows were read at.
pub proof fn commit_names_read_version(
    base: SnapshotModel,
    name: Option<Seq<char>>,
    expr: Option<Seq<char>>,
    reports: Seq<Report>,
)
    requires
        after(OperationModel::Configuring { snapshot: base, name, expr }, reports) is Committing,
    ensures
        ({
            let op = after(OperationModel::Configuring { snapshot: base, name, expr }, reports);
            &&& name is Some
            &&& expr is Some
            &&& op->Committing_actions == commit_actions_for(
                commit_info_for(name.unwrap(), expr.unwrap(), base.version, op.commit_time()),
                registering(base.metadata, name.unwrap(), expr.unwrap()),
                raised(base.protocol),
            )
        }),
{
    lemma_run_on_course(
        base,
        name,
        expr,
        OperationModel::Configuring { snapshot: base, name, expr },
        reports,
    );
}

} // verus!
