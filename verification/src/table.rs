//! A table as the operation sees it: its version, its metadata and the
//! protocol that readers and writers must speak.

use crate::configuration::Configuration;
use vstd::prelude::*;

verus! {

/// The lowest versions that a reader and a writer of a table must support,
/// and the named features that they must know.
#[derive(Debug, PartialEq, Eq)]
pub struct Protocol {
    pub min_reader_version: i32,
    pub min_writer_version: i32,
    pub reader_features: Vec<String>,
    pub writer_features: Vec<String>,
}

/// What a [`Protocol`] stands for.
#[verifier::ext_equal]
pub struct ProtocolModel {
    pub min_reader_version: int,
    pub min_writer_version: int,
    pub reader_features: Seq<Seq<char>>,
    pub writer_features: Seq<Seq<char>>,
}

impl View for Protocol {
    type V = ProtocolModel;

    open spec fn view(&self) -> ProtocolModel {
        ProtocolModel {
            min_reader_version: self.min_reader_version as int,
            min_writer_version: self.min_writer_version as int,
            reader_features: self.reader_features.deep_view(),
            writer_features: self.writer_features.deep_view(),
        }
    }
}

impl DeepView for Protocol {
    type V = ProtocolModel;

    open spec fn deep_view(&self) -> ProtocolModel {
        self@
    }
}

impl Clone for Protocol {
    fn clone(&self) -> (copy: Self)
        ensures
            copy@ == self@,
    {
        broadcast use vstd::std_specs::vec::vec_clone_deep_view_proof;

        Protocol {
            min_reader_version: self.min_reader_version,
            min_writer_version: self.min_writer_version,
            reader_features: self.reader_features.clone(),
            writer_features: self.writer_features.clone(),
        }
    }
}

/// The schema of a table, the columns it is partitioned by, and its
/// settings.
#[derive(Debug)]
pub struct Metadata {
    pub schema: String,
    pub partition_columns: Vec<String>,
    pub configuration: Configuration,
}

/// What a [`Metadata`] stands for.
#[verifier::ext_equal]
pub struct MetadataModel {
    pub schema: Seq<char>,
    pub partition_columns: Seq<Seq<char>>,
    pub configuration: Map<Seq<char>, Option<Seq<char>>>,
}

impl View for Metadata {
    type V = MetadataModel;

    open spec fn view(&self) -> MetadataModel {
        MetadataModel {
            schema: self.schema@,
            partition_columns: self.partition_columns.deep_view(),
            configuration: self.configuration@,
        }
    }
}

impl DeepView for Metadata {
    type V = MetadataModel;

    open spec fn deep_view(&self) -> MetadataModel {
        self@
    }
}

impl Clone for Metadata {
    fn clone(&self) -> (copy: Self)
        ensures
            copy@ == self@,
    {
        broadcast use vstd::std_specs::vec::vec_clone_deep_view_proof;

        Metadata {
            schema: self.schema.clone(),
            partition_columns: self.partition_columns.clone(),
            configuration: self.configuration.clone(),
        }
    }
}

/// A table at one version of its log. A snapshot is never changed: an
/// operation on a table yields a new one.
#[derive(Debug)]
pub struct TableSnapshot {
    version: i64,
    metadata: Metadata,
    protocol: Protocol,
    files: Vec<String>,
}

/// What a [`TableSnapshot`] stands for.
#[verifier::ext_equal]
pub struct SnapshotModel {
    pub version: int,
    pub metadata: MetadataModel,
    pub protocol: ProtocolModel,
    pub files: Seq<Seq<char>>,
}

impl View for TableSnapshot {
    type V = SnapshotModel;

    closed spec fn view(&self) -> SnapshotModel {
        SnapshotModel {
            version: self.version as int,
            metadata: self.metadata@,
            protocol: self.protocol@,
            files: self.files.deep_view(),
        }
    }
}

impl DeepView for TableSnapshot {
    type V = SnapshotModel;

    open spec fn deep_view(&self) -> SnapshotModel {
        self@
    }
}

impl TableSnapshot {
    /// The table at `version`, with the given metadata, protocol and files.
    pub fn new(version: i64, metadata: Metadata, protocol: Protocol, files: Vec<String>) -> (snapshot:
        Self)
        ensures
            snapshot@ == (SnapshotModel {
                version: version as int,
                metadata: metadata@,
                protocol: protocol@,
                files: files.deep_view(),
            }),
    {
        TableSnapshot { version, metadata, protocol, files }
    }

    /// The version of the log that the snapshot was read at.
    pub fn version(&self) -> (version: i64)
        ensures
            version == self@.version,
    {
        self.version
    }

    /// The metadata of the table.
    pub fn metadata(&self) -> (metadata: &Metadata)
        ensures
            metadata@ == self@.metadata,
    {
        &self.metadata
    }

    /// The protocol of the table.
    pub fn protocol(&self) -> (protocol: &Protocol)
        ensures
            protocol@ == self@.protocol,
    {
        &self.protocol
    }

    /// The files that hold the rows of the table.
    pub fn files(&self) -> (files: &Vec<String>)
        ensures
            files.deep_view() == self@.files,
    {
        &self.files
    }
}

impl Clone for TableSnapshot {
    fn clone(&self) -> (copy: Self)
        ensures
            copy@ == self@,
    {
        broadcast use vstd::std_specs::vec::vec_clone_deep_view_proof;

        TableSnapshot {
            version: self.version,
            metadata: self.metadata.clone(),
            protocol: self.protocol.clone(),
            files: self.files.clone(),
        }
    }
}

} // verus!
