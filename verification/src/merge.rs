//! Folding what a commit wrote into the snapshot that it was based on.

use crate::commit::{Action, ActionModel};
use crate::planner::at_least;
use crate::table::{Metadata, MetadataModel, Protocol, ProtocolModel, SnapshotModel, TableSnapshot};
use vstd::prelude::*;

verus! {

/// How an update is folded into a snapshot: whether the files and the
/// settings of the snapshot stay beside those of the update, or give way to
/// them. The protocol of an update always takes the place of the old one.
#[derive(Clone, Copy, Debug, PartialEq, Eq, Structural)]
pub struct MergePolicy {
    /// Keep the files of the snapshot and add those of the update.
    pub merge_files: bool,
    /// Keep the settings of the snapshot that the update does not set.
    pub merge_configuration: bool,
}

/// What one version of the log changes in a table.
#[derive(Debug)]
pub struct SnapshotUpdate {
    /// The version of the log that holds the changes.
    pub version: i64,
    /// The new metadata, where the version holds any.
    pub metadata: Option<Metadata>,
    /// The new protocol, where the version holds one.
    pub protocol: Option<Protocol>,
    /// The files that the version adds.
    pub files: Vec<String>,
}

/// What a [`SnapshotUpdate`] stands for.
#[verifier::ext_equal]
pub struct UpdateModel {
    pub version: int,
    pub metadata: Option<MetadataModel>,
    pub protocol: Option<ProtocolModel>,
    pub files: Seq<Seq<char>>,
}

impl View for SnapshotUpdate {
    type V = UpdateModel;

    open spec fn view(&self) -> UpdateModel {
        UpdateModel {
            version: self.version as int,
            metadata: self.metadata.deep_view(),
            protocol: self.protocol.deep_view(),
            files: self.files.deep_view(),
        }
    }
}

/// The metadata that the last metadata action of `actions` holds.
pub open spec fn latest_metadata(actions: Seq<ActionModel>) -> Option<MetadataModel>
    decreases actions.len(),
{
    if actions.len() == 0 {
        None
    } else {
        match actions.last() {
            ActionModel::Metadata(metadata) => Some(metadata),
            _ => latest_metadata(actions.drop_last()),
        }
    }
}

/// The protocol that the last protocol action of `actions` holds.
pub open spec fn latest_protocol(actions: Seq<ActionModel>) -> Option<ProtocolModel>
    decreases actions.len(),
{
    if actions.len() == 0 {
        None
    } else {
        match actions.last() {
            ActionModel::Protocol(protocol) => Some(protocol),
            _ => latest_protocol(actions.drop_last()),
        }
    }
}

/// What the actions of the log's version `version` change in a table.
pub open spec fn update_of(actions: Seq<ActionModel>, version: int) -> UpdateModel {
    UpdateModel {
        version,
        metadata: latest_metadata(actions),
        protocol: latest_protocol(actions),
        files: Seq::empty(),
    }
}

/// A snapshot with an update folded into it. The version never goes back.
pub open spec fn merged(base: SnapshotModel, update: UpdateModel, policy: MergePolicy)
    -> SnapshotModel {
    SnapshotModel {
        version: at_least(base.version, update.version),
        metadata: match update.metadata {
            Some(metadata) => MetadataModel {
                schema: metadata.schema,
                partition_columns: metadata.partition_columns,
                configuration: if policy.merge_configuration {
                    base.metadata.configuration.union_prefer_right(metadata.configuration)
                } else {
                    metadata.configuration
                },
            },
            None => base.metadata,
        },
        protocol: match update.protocol {
            Some(protocol) => protocol,
            None => base.protocol,
        },
        files: if policy.merge_files {
            base.files + update.files
        } else {
            update.files
        },
    }
}

impl SnapshotUpdate {
    /// What `actions`, committed as the log's version `version`, change in
    /// a table: the metadata and the protocol that they set last.
    pub fn from_actions(actions: &Vec<Action>, version: i64) -> (update: Self)
        ensures
            update@ == update_of(actions.deep_view(), version as int),
    {
        let mut metadata: Option<Metadata> = None;
        let mut protocol: Option<Protocol> = None;
        let ghost models = actions.deep_view();
        let mut i: usize = 0;
        while i < actions.len()
            invariant
                i <= actions.len(),
                models == actions.deep_view(),
                metadata.deep_view() == latest_metadata(models.take(i as int)),
                protocol.deep_view() == latest_protocol(models.take(i as int)),
            decreases actions.len() - i,
        {
            proof {
                assert(models.take(i + 1).drop_last() =~= models.take(i as int));
                assert(models.take(i + 1).last() == actions[i as int]@);
            }
            match &actions[i] {
                Action::Metadata(next) => {
                    metadata = Some(next.clone());
                },
                Action::Protocol(next) => {
                    protocol = Some(next.clone());
                },
                Action::CommitInfo(_) => {},
            }
            i += 1;
        }
        assert(models.take(i as int) =~= models);
        let update = SnapshotUpdate { version, metadata, protocol, files: Vec::new() };
        assert(update@.files =~= Seq::<Seq<char>>::empty());
        update
    }
}

/// The texts of `first` followed by those of `second`.
fn joined(first: &Vec<String>, second: &Vec<String>) -> (both: Vec<String>)
    ensures
        both.deep_view() == first.deep_view() + second.deep_view(),
{
    broadcast use vstd::std_specs::vec::vec_clone_deep_view_proof;

    let mut both = first.clone();
    let mut i: usize = 0;
    assert(both.deep_view() =~= first.deep_view() + second.deep_view().take(0));
    while i < second.len()
        invariant
            i <= second.len(),
            both.deep_view() == first.deep_view() + second.deep_view().take(i as int),
        decreases second.len() - i,
    {
        let ghost before = both.deep_view();
        both.push(second[i].clone());
        assert(both.deep_view() =~= before.push(second[i as int]@));
        assert(before.push(second[i as int]@) =~= first.deep_view() + second.deep_view().take(
            i + 1,
        ));
        i += 1;
    }
    assert(second.deep_view().take(i as int) =~= second.deep_view());
    both
}

impl TableSnapshot {
    /// The snapshot with `update` folded into it.
    ///
    /// The version is that of the update, unless the snapshot is already
    /// past it. The metadata and the protocol are those of the update where
    /// it has them; `policy` says what becomes of the settings and of the
    /// files.
    pub fn merge(&self, update: &SnapshotUpdate, policy: MergePolicy) -> (next: TableSnapshot)
        ensures
            next@ == merged(self@, update@, policy),
    {
        broadcast use vstd::std_specs::vec::vec_clone_deep_view_proof;

        let version = if self.version() > update.version {
            self.version()
        } else {
            update.version
        };
        let metadata = match &update.metadata {
            Some(metadata) => Metadata {
                schema: metadata.schema.clone(),
                partition_columns: metadata.partition_columns.clone(),
                configuration: if policy.merge_configuration {
                    self.metadata().configuration.merged(&metadata.configuration)
                } else {
                    metadata.configuration.clone()
                },
            },
            None => self.metadata().clone(),
        };
        let protocol = match &update.protocol {
            Some(protocol) => protocol.clone(),
            None => self.protocol().clone(),
        };
        let files = if policy.merge_files {
            joined(self.files(), &update.files)
        } else {
            update.files.clone()
        };
        TableSnapshot::new(version, metadata, protocol, files)
    }
}

} // verus!
