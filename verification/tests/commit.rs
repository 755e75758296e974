use table_constraints::commit::{
    commit_actions, commit_info, conclude, Action, CommitInfo, CommitReply, IsolationLevel,
    OperationParameters,
};
use table_constraints::configuration::Configuration;
use table_constraints::error::{ConstraintError, ErrorKind};
use table_constraints::merge::{MergePolicy, SnapshotUpdate};
use table_constraints::table::{Metadata, Protocol, TableSnapshot};

fn protocol(reader: i32, writer: i32) -> Protocol {
    Protocol {
        min_reader_version: reader,
        min_writer_version: writer,
        reader_features: vec![],
        writer_features: vec![],
    }
}

fn metadata(schema: &str, settings: &[(&str, &str)]) -> Metadata {
    let mut configuration = Configuration::new();
    for (key, value) in settings {
        configuration.insert(key.to_string(), Some(value.to_string()));
    }
    Metadata { schema: schema.to_string(), partition_columns: vec![], configuration }
}

fn snapshot(version: i64) -> TableSnapshot {
    TableSnapshot::new(
        version,
        metadata("old", &[("a", "1"), ("b", "2")]),
        protocol(1, 2),
        vec!["f1".to_string(), "f2".to_string()],
    )
}

fn entries() -> Vec<Action> {
    commit_actions(
        commit_info("id", "value > 0", 4, 1_700_000_000_000),
        metadata("old", &[("a", "1"), ("b", "2"), ("constraint.id", "value > 0")]),
        protocol(1, 3),
    )
}

#[test]
fn commit_says_what_it_rests_on() {
    let info = commit_info("id", "value < 1000", 7, 1_700_000_000_123);
    assert_eq!(
        info,
        CommitInfo {
            timestamp: 1_700_000_000_123,
            operation: "ADD CONSTRAINT".to_string(),
            operation_parameters: OperationParameters {
                name: "id".to_string(),
                expr: "value < 1000".to_string(),
            },
            read_version: 7,
            isolation_level: IsolationLevel::Serializable,
            is_blind_append: false,
        }
    );
}

#[test]
fn commit_info_comes_first() {
    let actions = entries();
    assert_eq!(actions.len(), 3);
    match &actions[0] {
        Action::CommitInfo(info) => {
            assert_eq!(info.read_version, 4);
            assert_eq!(info.timestamp, 1_700_000_000_000);
        }
        other => panic!("first entry is {:?}", other),
    }
    match &actions[1] {
        Action::Metadata(metadata) => {
            assert_eq!(metadata.constraint("id"), Some("value > 0".to_string()))
        }
        other => panic!("second entry is {:?}", other),
    }
    match &actions[2] {
        Action::Protocol(held) => assert_eq!(held, &protocol(1, 3)),
        other => panic!("third entry is {:?}", other),
    }
}

#[test]
fn committed_entries_make_the_new_snapshot() {
    let base = snapshot(4);
    let next = conclude(&base, &entries(), CommitReply::Committed(5)).unwrap();
    assert_eq!(next.version(), 5);
    assert_eq!(next.metadata().constraint("id"), Some("value > 0".to_string()));
    assert_eq!(next.metadata().configuration.get("a"), Some(&Some("1".to_string())));
    assert_eq!(next.metadata().configuration.settings().len(), 3);
    assert_eq!(next.protocol(), &protocol(1, 3));
    assert_eq!(next.files(), &vec!["f1".to_string(), "f2".to_string()]);
    assert_eq!(base.version(), 4);
    assert_eq!(base.metadata().constraint("id"), None);
    assert_eq!(base.protocol(), &protocol(1, 2));
}

#[test]
fn version_is_the_one_that_the_log_gave() {
    assert_eq!(conclude(&snapshot(4), &entries(), CommitReply::Committed(9)).unwrap().version(), 9);
    assert_eq!(conclude(&snapshot(4), &entries(), CommitReply::Committed(4)).unwrap().version(), 4);
    assert_eq!(conclude(&snapshot(4), &entries(), CommitReply::Committed(2)).unwrap().version(), 4);
    assert_eq!(
        conclude(&snapshot(i64::MAX), &entries(), CommitReply::Committed(i64::MIN))
            .unwrap()
            .version(),
        i64::MAX
    );
}

#[test]
fn refused_commit_is_an_error() {
    let conflict =
        conclude(&snapshot(4), &entries(), CommitReply::Conflict("version 5 exists".to_string()))
            .unwrap_err();
    assert_eq!(conflict, ConstraintError::CommitConflict("version 5 exists".to_string()));
    assert_eq!(conflict.kind(), ErrorKind::Conflict);
    let failed =
        conclude(&snapshot(4), &entries(), CommitReply::Failed("disk full".to_string())).unwrap_err();
    assert_eq!(failed, ConstraintError::CommitFailure("disk full".to_string()));
    assert_eq!(failed.kind(), ErrorKind::Commit);
    let encoding =
        conclude(&snapshot(4), &entries(), CommitReply::NotEncoded("bad schema".to_string()))
            .unwrap_err();
    assert_eq!(encoding, ConstraintError::Serialization("bad schema".to_string()));
    assert_eq!(encoding.kind(), ErrorKind::Serialization);
}

#[test]
fn update_holds_what_the_entries_set_last() {
    let actions = vec![
        Action::Metadata(metadata("first", &[])),
        Action::Protocol(protocol(1, 1)),
        Action::CommitInfo(commit_info("n", "e", 0, 0)),
        Action::Metadata(metadata("second", &[])),
        Action::Protocol(protocol(2, 5)),
        Action::CommitInfo(commit_info("n", "e", 0, 0)),
    ];
    let update = SnapshotUpdate::from_actions(&actions, 3);
    assert_eq!(update.version, 3);
    assert_eq!(update.metadata.unwrap().schema, "second");
    assert_eq!(update.protocol, Some(protocol(2, 5)));
    assert!(update.files.is_empty());
}

#[test]
fn update_without_entries_changes_nothing() {
    let update = SnapshotUpdate::from_actions(&vec![], 8);
    assert_eq!(update.version, 8);
    assert!(update.metadata.is_none());
    assert!(update.protocol.is_none());
    let only_info =
        SnapshotUpdate::from_actions(&vec![Action::CommitInfo(commit_info("n", "e", 0, 0))], 8);
    assert!(only_info.metadata.is_none());
    assert!(only_info.protocol.is_none());
    let merged = snapshot(4).merge(&update, MergePolicy { merge_files: true, merge_configuration: true });
    assert_eq!(merged.version(), 8);
    assert_eq!(merged.metadata().schema, "old");
    assert_eq!(merged.metadata().configuration.settings().len(), 2);
    assert_eq!(merged.protocol(), &protocol(1, 2));
    assert_eq!(merged.files().len(), 2);
}

#[test]
fn policy_says_what_stays() {
    let update = SnapshotUpdate {
        version: 5,
        metadata: Some(metadata("new", &[("b", "20"), ("c", "30")])),
        protocol: Some(protocol(3, 7)),
        files: vec!["f3".to_string()],
    };
    let both = snapshot(4).merge(&update, MergePolicy { merge_files: true, merge_configuration: true });
    assert_eq!(both.metadata().schema, "new");
    assert_eq!(both.metadata().configuration.get("a"), Some(&Some("1".to_string())));
    assert_eq!(both.metadata().configuration.get("b"), Some(&Some("20".to_string())));
    assert_eq!(both.metadata().configuration.get("c"), Some(&Some("30".to_string())));
    assert_eq!(both.files(), &vec!["f1".to_string(), "f2".to_string(), "f3".to_string()]);
    assert_eq!(both.protocol(), &protocol(3, 7));

    let neither =
        snapshot(4).merge(&update, MergePolicy { merge_files: false, merge_configuration: false });
    assert_eq!(neither.metadata().configuration.get("a"), None);
    assert_eq!(neither.metadata().configuration.get("b"), Some(&Some("20".to_string())));
    assert_eq!(neither.metadata().configuration.settings().len(), 2);
    assert_eq!(neither.files(), &vec!["f3".to_string()]);
    assert_eq!(neither.protocol(), &protocol(3, 7));
    assert_eq!(neither.version(), 5);
}

#[test]
fn snapshot_is_what_it_was_made_of() {
    let held = snapshot(12);
    assert_eq!(held.version(), 12);
    assert_eq!(held.metadata().schema, "old");
    assert_eq!(held.protocol(), &protocol(1, 2));
    assert_eq!(held.files().len(), 2);
    let copy = held.clone();
    assert_eq!(copy.version(), 12);
    assert_eq!(copy.metadata().configuration.get("b"), Some(&Some("2".to_string())));
    assert_eq!(copy.protocol(), held.protocol());
    assert_eq!(copy.files(), held.files());
}
