//! The commit that registers a constraint: what is written to the log, and
//! what the log's answer means for the table.

use crate::error::{ConstraintError, ErrorModel};
use crate::merge::{merged, update_of, MergePolicy, SnapshotUpdate};
use crate::table::{Metadata, MetadataModel, Protocol, ProtocolModel, SnapshotModel, TableSnapshot};
use vstd::prelude::*;

verus! {

/// How strictly a commit is held against the commits of other writers.
#[derive(Clone, Copy, Debug, PartialEq, Eq, Structural)]
pub enum IsolationLevel {
    /// The commit is valid only if it has seen all the data before it.
    Serializable,
    /// Only writes are held against each other.
    WriteSerializable,
    /// The commit is valid against the snapshot that it has read.
    SnapshotIsolation,
}

/// The parameters of the operation as the log records them.
#[derive(Debug, PartialEq, Eq)]
pub struct OperationParameters {
    pub name: String,
    pub expr: String,
}

/// What [`OperationParameters`] stand for.
pub struct ParametersModel {
    pub name: Seq<char>,
    pub expr: Seq<char>,
}

/// What a commit says of itself: when it was made, by which operation, on
/// which version of the table, and how it is to be held against others.
#[derive(Debug, PartialEq, Eq)]
pub struct CommitInfo {
    pub timestamp: i64,
    pub operation: String,
    pub operation_parameters: OperationParameters,
    pub read_version: i64,
    pub isolation_level: IsolationLevel,
    pub is_blind_append: bool,
}

/// What a [`CommitInfo`] stands for.
pub struct CommitInfoModel {
    pub timestamp: int,
    pub operation: Seq<char>,
    pub operation_parameters: ParametersModel,
    pub read_version: int,
    pub isolation_level: IsolationLevel,
    pub is_blind_append: bool,
}

impl View for CommitInfo {
    type V = CommitInfoModel;

    open spec fn view(&self) -> CommitInfoModel {
        CommitInfoModel {
            timestamp: self.timestamp as int,
            operation: self.operation@,
            operation_parameters: ParametersModel {
                name: self.operation_parameters.name@,
                expr: self.operation_parameters.expr@,
            },
            read_version: self.read_version as int,
            isolation_level: self.isolation_level,
            is_blind_append: self.is_blind_append,
        }
    }
}

/// One entry of the log.
#[derive(Debug)]
pub enum Action {
    CommitInfo(CommitInfo),
    Metadata(Metadata),
    Protocol(Protocol),
}

/// What an [`Action`] stands for.
#[verifier::ext_equal]
pub enum ActionModel {
    CommitInfo(CommitInfoModel),
    Metadata(MetadataModel),
    Protocol(ProtocolModel),
}

impl View for Action {
    type V = ActionModel;

    open spec fn view(&self) -> ActionModel {
        match *self {
            Action::CommitInfo(info) => ActionModel::CommitInfo(info@),
            Action::Metadata(metadata) => ActionModel::Metadata(metadata@),
            Action::Protocol(protocol) => ActionModel::Protocol(protocol@),
        }
    }
}

impl DeepView for Action {
    type V = ActionModel;

    open spec fn deep_view(&self) -> ActionModel {
        self@
    }
}

/// The name under which the log records the operation.
pub open spec fn operation_name() -> Seq<char> {
    "ADD CONSTRAINT"@
}

/// What the commit that registers `expr` under `name` says of itself.
///
/// The commit depends on every row that the table held at `read_version`:
/// it is serializable, and it is no blind append.
pub open spec fn commit_info_for(
    name: Seq<char>,
    expr: Seq<char>,
    read_version: int,
    timestamp: int,
) -> CommitInfoModel {
    CommitInfoModel {
        timestamp,
        operation: operation_name(),
        operation_parameters: ParametersModel { name, expr },
        read_version,
        isolation_level: IsolationLevel::Serializable,
        is_blind_append: false,
    }
}

/// The entries of the commit, in the order in which the log holds them:
/// what the commit says of itself comes before what it changes.
pub open spec fn commit_actions_for(
    info: CommitInfoModel,
    metadata: MetadataModel,
    protocol: ProtocolModel,
) -> Seq<ActionModel> {
    seq![
        ActionModel::CommitInfo(info),
        ActionModel::Metadata(metadata),
        ActionModel::Protocol(protocol),
    ]
}

/// What the commit that registers `expr` under `name` says of itself, made
/// at `timestamp` on the table as it was at `read_version`.
pub fn commit_info(name: &str, expr: &str, read_version: i64, timestamp: i64) -> (info: CommitInfo)
    ensures
        info@ == commit_info_for(name@, expr@, read_version as int, timestamp as int),
{
    CommitInfo {
        timestamp,
        operation: String::from_str("ADD CONSTRAINT"),
        operation_parameters: OperationParameters { name: name.to_owned(), expr: expr.to_owned() },
        read_version,
        isolation_level: IsolationLevel::Serializable,
        is_blind_append: false,
    }
}

/// The entries of the commit in the order in which the log holds them.
pub fn commit_actions(info: CommitInfo, metadata: Metadata, protocol: Protocol) -> (actions: Vec<
    Action,
>)
    ensures
        actions.deep_view() == commit_actions_for(info@, metadata@, protocol@),
{
    let mut actions: Vec<Action> = Vec::new();
    actions.push(Action::CommitInfo(info));
    actions.push(Action::Metadata(metadata));
    actions.push(Action::Protocol(protocol));
    assert(actions.deep_view() =~= commit_actions_for(info@, metadata@, protocol@));
    actions
}

/// What the log answered to a commit.
#[derive(Debug, PartialEq, Eq)]
pub enum CommitReply {
    /// The commit is the log's version of this number.
    Committed(i64),
    /// A commit of another writer conflicts with this one.
    Conflict(String),
    /// The log could not be written.
    Failed(String),
    /// The entries could not be encoded for the log.
    NotEncoded(String),
}

/// What a [`CommitReply`] stands for.
pub enum ReplyModel {
    Committed(int),
    Conflict(Seq<char>),
    Failed(Seq<char>),
    NotEncoded(Seq<char>),
}

impl View for CommitReply {
    type V = ReplyModel;

    open spec fn view(&self) -> ReplyModel {
        match *self {
            CommitReply::Committed(version) => ReplyModel::Committed(version as int),
            CommitReply::Conflict(text) => ReplyModel::Conflict(text@),
            CommitReply::Failed(text) => ReplyModel::Failed(text@),
            CommitReply::NotEncoded(text) => ReplyModel::NotEncoded(text@),
        }
    }
}

/// How a committed update is folded into the snapshot it was based on: the
/// files and the settings of the snapshot stay.
pub open spec fn fold_policy() -> MergePolicy {
    MergePolicy { merge_files: true, merge_configuration: true }
}

/// The table after the log's answer: the snapshot with the committed
/// entries folded into it, or the reason why nothing was committed.
pub open spec fn concluded(base: SnapshotModel, actions: Seq<ActionModel>, reply: ReplyModel)
    -> Result<SnapshotModel, ErrorModel> {
    match reply {
        ReplyModel::Committed(version) => Ok(
            merged(base, update_of(actions, version), fold_policy()),
        ),
        ReplyModel::Conflict(text) => Err(ErrorModel::CommitConflict(text)),
        ReplyModel::Failed(text) => Err(ErrorModel::CommitFailure(text)),
        ReplyModel::NotEncoded(text) => Err(ErrorModel::Serialization(text)),
    }
}

/// What the conclusion of a commit stands for.
pub open spec fn conclusion_model(conclusion: Result<TableSnapshot, ConstraintError>) -> Result<
    SnapshotModel,
    ErrorModel,
> {
    match conclusion {
        Ok(snapshot) => Ok(snapshot@),
        Err(error) => Err(error@),
    }
}

/// Turns the log's answer to the commit of `actions` into the table's new
/// snapshot, or into the error that says why the table stays as it was.
pub fn conclude(base: &TableSnapshot, actions: &Vec<Action>, reply: CommitReply) -> (conclusion:
    Result<TableSnapshot, ConstraintError>)
    ensures
        conclusion_model(conclusion) == concluded(base@, actions.deep_view(), reply@),
{
    match reply {
        CommitReply::Committed(version) => {
            let update = SnapshotUpdate::from_actions(actions, version);
            let policy = MergePolicy { merge_files: true, merge_configuration: true };
            Ok(base.merge(&update, policy))
        },
        CommitReply::Conflict(text) => Err(ConstraintError::CommitConflict(text)),
        CommitReply::Failed(text) => Err(ConstraintError::CommitFailure(text)),
        CommitReply::NotEncoded(text) => Err(ConstraintError::Serialization(text)),
    }
}

} // verus!
