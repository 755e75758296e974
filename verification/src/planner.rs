//! What a table becomes when a constraint is added to it.

use crate::constraint::{constraint_key, key_of};
use crate::error::{ConstraintError, ErrorModel};
use crate::table::{Metadata, MetadataModel, Protocol, ProtocolModel};
use vstd::prelude::*;

verus! {

/// The lowest reader version of a table with constraints.
pub const MIN_READER_VERSION: i32 = 1;

/// The lowest writer version that enforces constraints.
pub const MIN_WRITER_VERSION: i32 = 3;

/// The larger of a version and a floor.
pub open spec fn at_least(version: int, floor: int) -> int {
    if version > floor {
        version
    } else {
        floor
    }
}

/// The protocol of a table with constraints: no version is lowered, both
/// reach their floors, and the features stay.
pub open spec fn raised(protocol: ProtocolModel) -> ProtocolModel {
    ProtocolModel {
        min_reader_version: at_least(protocol.min_reader_version, MIN_READER_VERSION as int),
        min_writer_version: at_least(protocol.min_writer_version, MIN_WRITER_VERSION as int),
        reader_features: protocol.reader_features,
        writer_features: protocol.writer_features,
    }
}

/// The metadata with `expr` registered under the constraint `name`.
pub open spec fn registering(metadata: MetadataModel, name: Seq<char>, expr: Seq<char>)
    -> MetadataModel {
    MetadataModel {
        schema: metadata.schema,
        partition_columns: metadata.partition_columns,
        configuration: metadata.configuration.insert(key_of(name), Some(expr)),
    }
}

/// The metadata and protocol of the table once `expr` is registered under
/// `name`, or the conflict where the name is taken.
pub open spec fn planned(
    metadata: MetadataModel,
    protocol: ProtocolModel,
    name: Seq<char>,
    expr: Seq<char>,
) -> Result<(MetadataModel, ProtocolModel), ErrorModel> {
    if metadata.configuration.contains_key(key_of(name)) {
        Err(ErrorModel::ConstraintExists { name, expr })
    } else {
        Ok((registering(metadata, name, expr), raised(protocol)))
    }
}

/// What a plan stands for.
pub open spec fn plan_model(plan: Result<(Metadata, Protocol), ConstraintError>) -> Result<
    (MetadataModel, ProtocolModel),
    ErrorModel,
> {
    match plan {
        Ok((metadata, protocol)) => Ok((metadata@, protocol@)),
        Err(error) => Err(error@),
    }
}

/// The protocol of a table with constraints.
pub fn raise_protocol(protocol: &Protocol) -> (next: Protocol)
    ensures
        next@ == raised(protocol@),
{
    broadcast use vstd::std_specs::vec::vec_clone_deep_view_proof;

    Protocol {
        min_reader_version: if protocol.min_reader_version > MIN_READER_VERSION {
            protocol.min_reader_version
        } else {
            MIN_READER_VERSION
        },
        min_writer_version: if protocol.min_writer_version > MIN_WRITER_VERSION {
            protocol.min_writer_version
        } else {
            MIN_WRITER_VERSION
        },
        reader_features: protocol.reader_features.clone(),
        writer_features: protocol.writer_features.clone(),
    }
}

/// Plans the addition of the constraint `name` with the predicate `expr`.
///
/// Where the table has a constraint of that name, whatever its predicate,
/// the plan is a conflict. Else it is the metadata with the predicate
/// registered, as it was given, and the raised protocol. Nothing is read
/// or written, so a plan can be made again.
pub fn plan_constraint(metadata: &Metadata, protocol: &Protocol, name: &str, expr: &str) -> (plan:
    Result<(Metadata, Protocol), ConstraintError>)
    ensures
        plan_model(plan) == planned(metadata@, protocol@, name@, expr@),
{
    let key = constraint_key(name);
    if metadata.configuration.contains_key(key.as_str()) {
        return Err(ConstraintError::ConstraintExists { name: name.to_owned(), expr: expr.to_owned() });
    }
    let mut next = metadata.clone();
    next.configuration.insert(key, Some(expr.to_owned()));
    Ok((next, raise_protocol(protocol)))
}

} // verus!
