//! Configuring the operation.

use crate::expression::Expression;
use crate::operation::{Operation, OperationModel, Origin};
use crate::table::{SnapshotModel, TableSnapshot};
use datafusion::execution::context::SessionState;
use vstd::prelude::*;

verus! {

/// `datafusion::execution::context::SessionState`, the state of a session
/// of the query engine. The type is declared so that the library can hand
/// such a value on to whoever scans the table; nothing is known of what is
/// inside.
#[verifier::external_type_specification]
#[verifier::external_body]
pub struct ExSessionState(datafusion::execution::context::SessionState);

/// Build a constraint to add to a table.
///
/// `L` is the handle of the table's log. The library keeps it for the
/// caller and never uses it.
pub struct ConstraintBuilder<L> {
    snapshot: TableSnapshot,
    name: Option<String>,
    expr: Option<String>,
    log_store: L,
    state: Option<SessionState>,
}

/// What a [`ConstraintBuilder`] stands for.
pub struct BuilderModel<L> {
    pub snapshot: SnapshotModel,
    pub name: Option<Seq<char>>,
    pub expr: Option<Seq<char>>,
    pub log_store: L,
    pub state: Option<SessionState>,
}

impl<L> View for ConstraintBuilder<L> {
    type V = BuilderModel<L>;

    closed spec fn view(&self) -> BuilderModel<L> {
        BuilderModel {
            snapshot: self.snapshot@,
            name: self.name.deep_view(),
            expr: self.expr.deep_view(),
            log_store: self.log_store,
            state: self.state,
        }
    }
}

impl<L> ConstraintBuilder<L> {
    /// Create a new builder
    pub fn new(log_store: L, snapshot: TableSnapshot) -> (builder: Self)
        ensures
            builder@ == (BuilderModel {
                snapshot: snapshot@,
                name: None,
                expr: None,
                log_store,
                state: None,
            }),
    {
        ConstraintBuilder { name: None, expr: None, snapshot, log_store, state: None }
    }

    /// Specify the constraint to be added: its name and its predicate, as
    /// text or parsed. The predicate is kept as text. A constraint that
    /// was specified before is forgotten.
    pub fn with_constraint(self, column: &str, expression: Expression) -> (builder: Self)
        ensures
            builder@.name == Some(column@),
            builder@.expr matches Some(text) && expression.written_as(text),
            builder@.snapshot == self@.snapshot,
            builder@.log_store == self@.log_store,
            builder@.state == self@.state,
    {
        ConstraintBuilder {
            name: Some(column.to_owned()),
            expr: Some(expression.into_text()),
            snapshot: self.snapshot,
            log_store: self.log_store,
            state: self.state,
        }
    }

    /// Specify the datafusion session context
    pub fn with_session_state(self, state: SessionState) -> (builder: Self)
        ensures
            builder@ == (BuilderModel { state: Some(state), ..self@ }),
    {
        ConstraintBuilder {
            name: self.name,
            expr: self.expr,
            snapshot: self.snapshot,
            log_store: self.log_store,
            state: Some(state),
        }
    }

    /// Ends the configuration: the operation, still at its first stage,
    /// the handle of the log, and the session state where one was given.
    /// Where none was given, the caller scans the table in a session of
    /// its own.
    pub fn into_operation(self) -> (parts: (Operation, L, Option<SessionState>))
        ensures
            parts.0@ == (OperationModel::Configuring {
                snapshot: self@.snapshot,
                name: self@.name,
                expr: self@.expr,
            }),
            parts.0.origin() == (Origin {
                snapshot: self@.snapshot,
                name: self@.name,
                expr: self@.expr,
            }),
            parts.1 == self@.log_store,
            parts.2 == self@.state,
    {
        (Operation::new(self.snapshot, self.name, self.expr), self.log_store, self.state)
    }
}

} // verus!
