//! Why an operation did not add its constraint.

use vstd::prelude::*;

verus! {

/// The stage of the operation that an error belongs to.
#[derive(Clone, Copy, Debug, PartialEq, Eq, Structural)]
pub enum ErrorKind {
    /// The operation was started without a name or without an expression.
    Configuration,
    /// The name is taken, or another writer's commit came first.
    Conflict,
    /// The rows of the table could not be shown to satisfy the predicate.
    Validation,
    /// The log could not be written.
    Commit,
    /// The new metadata could not be encoded for the log.
    Serialization,
}

/// Why the rows of the table were not shown to satisfy a predicate.
#[derive(Debug, PartialEq, Eq)]
pub enum ValidationFailure {
    /// A row does not satisfy the predicate.
    Violation(String),
    /// A batch of rows could not be read.
    Read(String),
    /// The scan of the table could not be set up.
    Scan(String),
    /// A task that checked a partition ended without a result.
    Aborted(String),
}

/// What a [`ValidationFailure`] stands for.
pub enum FailureModel {
    Violation(Seq<char>),
    Read(Seq<char>),
    Scan(Seq<char>),
    Aborted(Seq<char>),
}

impl View for ValidationFailure {
    type V = FailureModel;

    open spec fn view(&self) -> FailureModel {
        match *self {
            ValidationFailure::Violation(text) => FailureModel::Violation(text@),
            ValidationFailure::Read(text) => FailureModel::Read(text@),
            ValidationFailure::Scan(text) => FailureModel::Scan(text@),
            ValidationFailure::Aborted(text) => FailureModel::Aborted(text@),
        }
    }
}

impl DeepView for ValidationFailure {
    type V = FailureModel;

    open spec fn deep_view(&self) -> FailureModel {
        self@
    }
}

impl FailureModel {
    /// The text that the failure carries.
    pub open spec fn message(self) -> Seq<char> {
        match self {
            FailureModel::Violation(text) => text,
            FailureModel::Read(text) => text,
            FailureModel::Scan(text) => text,
            FailureModel::Aborted(text) => text,
        }
    }
}

impl ValidationFailure {
    /// The text that the failure carries.
    pub fn message(&self) -> (text: String)
        ensures
            text@ == self@.message(),
    {
        match self {
            ValidationFailure::Violation(text) => text.clone(),
            ValidationFailure::Read(text) => text.clone(),
            ValidationFailure::Scan(text) => text.clone(),
            ValidationFailure::Aborted(text) => text.clone(),
        }
    }
}

/// Why an operation ended without adding its constraint.
#[derive(Debug, PartialEq, Eq)]
pub enum ConstraintError {
    /// The operation was started without a name.
    MissingName,
    /// The operation was started without an expression.
    MissingExpression,
    /// The table already has a constraint of this name.
    ConstraintExists { name: String, expr: String },
    /// Another writer's commit conflicts with this one.
    CommitConflict(String),
    /// The rows of the table were not shown to satisfy the predicate.
    Validation(ValidationFailure),
    /// The log could not be written.
    CommitFailure(String),
    /// The new metadata could not be encoded for the log.
    Serialization(String),
}

/// What a [`ConstraintError`] stands for.
pub enum ErrorModel {
    MissingName,
    MissingExpression,
    ConstraintExists { name: Seq<char>, expr: Seq<char> },
    CommitConflict(Seq<char>),
    Validation(FailureModel),
    CommitFailure(Seq<char>),
    Serialization(Seq<char>),
}

impl View for ConstraintError {
    type V = ErrorModel;

    open spec fn view(&self) -> ErrorModel {
        match *self {
            ConstraintError::MissingName => ErrorModel::MissingName,
            ConstraintError::MissingExpression => ErrorModel::MissingExpression,
            ConstraintError::ConstraintExists { name, expr } => ErrorModel::ConstraintExists {
                name: name@,
                expr: expr@,
            },
            ConstraintError::CommitConflict(text) => ErrorModel::CommitConflict(text@),
            ConstraintError::Validation(failure) => ErrorModel::Validation(failure@),
            ConstraintError::CommitFailure(text) => ErrorModel::CommitFailure(text@),
            ConstraintError::Serialization(text) => ErrorModel::Serialization(text@),
        }
    }
}

impl DeepView for ConstraintError {
    type V = ErrorModel;

    open spec fn deep_view(&self) -> ErrorModel {
        self@
    }
}

impl ErrorModel {
    /// The stage that the error belongs to.
    pub open spec fn kind(self) -> ErrorKind {
        match self {
            ErrorModel::MissingName => ErrorKind::Configuration,
            ErrorModel::MissingExpression => ErrorKind::Configuration,
            ErrorModel::ConstraintExists { .. } => ErrorKind::Conflict,
            ErrorModel::CommitConflict(_) => ErrorKind::Conflict,
            ErrorModel::Validation(_) => ErrorKind::Validation,
            ErrorModel::CommitFailure(_) => ErrorKind::Commit,
            ErrorModel::Serialization(_) => ErrorKind::Serialization,
        }
    }

    /// The error in words.
    pub open spec fn message(self) -> Seq<char> {
        match self {
            ErrorModel::MissingName => "No name provided"@,
            ErrorModel::MissingExpression => "No expression provided"@,
            ErrorModel::ConstraintExists { name, expr } => "Constraint with name: "@ + name
                + " already exists, expr: "@ + expr,
            ErrorModel::CommitConflict(text) => text,
            ErrorModel::Validation(failure) => failure.message(),
            ErrorModel::CommitFailure(text) => text,
            ErrorModel::Serialization(text) => text,
        }
    }
}

impl ConstraintError {
    /// The stage that the error belongs to.
    pub fn kind(&self) -> (kind: ErrorKind)
        ensures
            kind == self@.kind(),
    {
        match self {
            ConstraintError::MissingName => ErrorKind::Configuration,
            ConstraintError::MissingExpression => ErrorKind::Configuration,
            ConstraintError::ConstraintExists { .. } => ErrorKind::Conflict,
            ConstraintError::CommitConflict(_) => ErrorKind::Conflict,
            ConstraintError::Validation(_) => ErrorKind::Validation,
            ConstraintError::CommitFailure(_) => ErrorKind::Commit,
            ConstraintError::Serialization(_) => ErrorKind::Serialization,
        }
    }

    /// The error in words.
    pub fn message(&self) -> (text: String)
        ensures
            text@ == self@.message(),
    {
        match self {
            ConstraintError::MissingName => String::from_str("No name provided"),
            ConstraintError::MissingExpression => String::from_str("No expression provided"),
            ConstraintError::ConstraintExists { name, expr } => {
                let mut text = String::from_str("Constraint with name: ");
                text.append(name.as_str());
                text.append(" already exists, expr: ");
                text.append(expr.as_str());
                text
            },
            ConstraintError::CommitConflict(text) => text.clone(),
            ConstraintError::Validation(failure) => failure.message(),
            ConstraintError::CommitFailure(text) => text.clone(),
            ConstraintError::Serialization(text) => text.clone(),
        }
    }
}

} // verus!
