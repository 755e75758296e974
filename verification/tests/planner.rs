use table_constraints::configuration::Configuration;
use table_constraints::constraint::{constraint_key, constraint_name, Constraint};
use table_constraints::error::{ConstraintError, ErrorKind, ValidationFailure};
use table_constraints::planner::{
    plan_constraint, raise_protocol, MIN_READER_VERSION, MIN_WRITER_VERSION,
};
use table_constraints::table::{Metadata, Protocol};

fn protocol(reader: i32, writer: i32) -> Protocol {
    Protocol {
        min_reader_version: reader,
        min_writer_version: writer,
        reader_features: vec!["columnMapping".to_string()],
        writer_features: vec!["checkConstraints".to_string(), "columnMapping".to_string()],
    }
}

fn metadata(settings: &[(&str, Option<&str>)]) -> Metadata {
    let mut configuration = Configuration::new();
    for (key, value) in settings {
        configuration.insert(key.to_string(), value.map(|text| text.to_string()));
    }
    Metadata {
        schema: "value: integer".to_string(),
        partition_columns: vec!["modified".to_string()],
        configuration,
    }
}

#[test]
fn floors_are_one_and_three() {
    assert_eq!(MIN_READER_VERSION, 1);
    assert_eq!(MIN_WRITER_VERSION, 3);
}

#[test]
fn low_versions_are_raised_to_the_floors() {
    let raised = raise_protocol(&protocol(0, 0));
    assert_eq!(raised, protocol(1, 3));
    assert_eq!(raise_protocol(&protocol(1, 2)), protocol(1, 3));
    assert_eq!(raise_protocol(&protocol(-4, -1)), protocol(1, 3));
    assert_eq!(raise_protocol(&protocol(i32::MIN, i32::MIN)), protocol(1, 3));
}

#[test]
fn high_versions_are_kept() {
    assert_eq!(raise_protocol(&protocol(1, 3)), protocol(1, 3));
    assert_eq!(raise_protocol(&protocol(2, 5)), protocol(2, 5));
    assert_eq!(raise_protocol(&protocol(3, 7)), protocol(3, 7));
    assert_eq!(raise_protocol(&protocol(2, 1)), protocol(2, 3));
    assert_eq!(raise_protocol(&protocol(0, 4)), protocol(1, 4));
    assert_eq!(raise_protocol(&protocol(i32::MAX, i32::MAX)), protocol(i32::MAX, i32::MAX));
}

#[test]
fn raising_twice_changes_nothing_more() {
    let once = raise_protocol(&protocol(0, 2));
    assert_eq!(raise_protocol(&once), once);
}

#[test]
fn plan_registers_the_predicate_as_given() {
    let before = metadata(&[("delta.appendOnly", Some("true"))]);
    let (after, raised) =
        plan_constraint(&before, &protocol(1, 2), "id", "  value <  1000 ").unwrap();
    assert_eq!(after.configuration.get("constraint.id"), Some(&Some("  value <  1000 ".to_string())));
    assert_eq!(after.configuration.get("delta.appendOnly"), Some(&Some("true".to_string())));
    assert_eq!(after.configuration.settings().len(), 2);
    assert_eq!(after.schema, "value: integer");
    assert_eq!(after.partition_columns, vec!["modified".to_string()]);
    assert_eq!(raised, protocol(1, 3));
    assert_eq!(before.configuration.get("constraint.id"), None);
    assert_eq!(before.configuration.settings().len(), 1);
}

#[test]
fn plan_of_a_taken_name_is_a_conflict() {
    let before = metadata(&[("constraint.id", Some("value < 1000"))]);
    for expr in ["value < 10", "value < 1000", ""] {
        let error = plan_constraint(&before, &protocol(1, 3), "id", expr).unwrap_err();
        assert_eq!(
            error,
            ConstraintError::ConstraintExists { name: "id".to_string(), expr: expr.to_string() }
        );
        assert_eq!(error.kind(), ErrorKind::Conflict);
    }
    assert_eq!(before.constraint("id"), Some("value < 1000".to_string()));
}

#[test]
fn name_held_without_text_is_taken() {
    let before = metadata(&[("constraint.id", None)]);
    assert!(plan_constraint(&before, &protocol(1, 3), "id", "value > 0").is_err());
    assert_eq!(before.constraint("id"), None);
}

#[test]
fn names_differ_by_case_and_length() {
    let before = metadata(&[("constraint.id", Some("value > 0"))]);
    assert!(plan_constraint(&before, &protocol(1, 3), "ID", "value > 0").is_ok());
    assert!(plan_constraint(&before, &protocol(1, 3), "id2", "value > 0").is_ok());
    assert!(plan_constraint(&before, &protocol(1, 3), "i", "value > 0").is_ok());
    assert!(plan_constraint(&before, &protocol(1, 3), "", "value > 0").is_ok());
}

#[test]
fn plan_can_be_made_again() {
    let before = metadata(&[]);
    let first = plan_constraint(&before, &protocol(1, 1), "id", "value > 0").unwrap();
    let second = plan_constraint(&before, &protocol(1, 1), "id", "value > 0").unwrap();
    assert_eq!(first.1, second.1);
    assert_eq!(first.0.constraint("id"), second.0.constraint("id"));
}

#[test]
fn key_is_the_prefix_and_the_name() {
    assert_eq!(constraint_key("id"), "constraint.id");
    assert_eq!(constraint_key(""), "constraint.");
    assert_eq!(constraint_key("a.b c"), "constraint.a.b c");
    assert_eq!(constraint_key("größe"), "constraint.größe");
}

#[test]
fn name_is_what_follows_the_prefix() {
    assert_eq!(constraint_name("constraint.id"), Some("id".to_string()));
    assert_eq!(constraint_name("constraint."), Some(String::new()));
    assert_eq!(constraint_name("constraint.a.b c"), Some("a.b c".to_string()));
    assert_eq!(constraint_name("constraint.größe"), Some("größe".to_string()));
    assert_eq!(constraint_name("constraint.constraint.x"), Some("constraint.x".to_string()));
    assert_eq!(constraint_name("constraint"), None);
    assert_eq!(constraint_name("constraints.id"), None);
    assert_eq!(constraint_name("Constraint.id"), None);
    assert_eq!(constraint_name("delta.constraint.id"), None);
    assert_eq!(constraint_name(""), None);
    assert_eq!(constraint_name("cönstraint.id"), None);
}

#[test]
fn name_of_a_key_is_the_name() {
    for name in ["id", "", "x.y", "größe", "constraint."] {
        assert_eq!(constraint_name(&constraint_key(name)), Some(name.to_string()));
    }
}

#[test]
fn constraints_are_the_registered_predicates() {
    let held = metadata(&[
        ("delta.appendOnly", Some("true")),
        ("constraint.id", Some("value < 1000")),
        ("constraint.empty", None),
        ("constraint.positive", Some("value > 0")),
        ("constraints.other", Some("value > 1")),
    ]);
    let mut list = held.constraints();
    list.sort_by(|left, right| left.name.cmp(&right.name));
    assert_eq!(
        list,
        vec![
            Constraint { name: "id".to_string(), expr: "value < 1000".to_string() },
            Constraint { name: "positive".to_string(), expr: "value > 0".to_string() },
        ]
    );
    assert_eq!(held.constraint("id"), Some("value < 1000".to_string()));
    assert_eq!(held.constraint("empty"), None);
    assert_eq!(held.constraint("other"), None);
    assert!(metadata(&[]).constraints().is_empty());
}

#[test]
fn constraint_is_a_name_and_a_predicate() {
    assert_eq!(
        Constraint::new("*", "value > 0"),
        Constraint { name: "*".to_string(), expr: "value > 0".to_string() }
    );
}

#[test]
fn errors_say_what_happened() {
    assert_eq!(ConstraintError::MissingName.message(), "No name provided");
    assert_eq!(ConstraintError::MissingExpression.message(), "No expression provided");
    assert_eq!(
        ConstraintError::ConstraintExists { name: "id".to_string(), expr: "value < 10".to_string() }
            .message(),
        "Constraint with name: id already exists, expr: value < 10"
    );
    assert_eq!(ConstraintError::CommitConflict("too late".to_string()).message(), "too late");
    assert_eq!(ConstraintError::CommitFailure("disk full".to_string()).message(), "disk full");
    assert_eq!(ConstraintError::Serialization("bad schema".to_string()).message(), "bad schema");
    assert_eq!(
        ConstraintError::Validation(ValidationFailure::Violation("row 3".to_string())).message(),
        "row 3"
    );
    assert_eq!(ValidationFailure::Read("eof".to_string()).message(), "eof");
    assert_eq!(ValidationFailure::Scan("no plan".to_string()).message(), "no plan");
    assert_eq!(ValidationFailure::Aborted("panicked".to_string()).message(), "panicked");
}

#[test]
fn each_error_has_its_kind() {
    assert_eq!(ConstraintError::MissingName.kind(), ErrorKind::Configuration);
    assert_eq!(ConstraintError::MissingExpression.kind(), ErrorKind::Configuration);
    assert_eq!(
        ConstraintError::ConstraintExists { name: String::new(), expr: String::new() }.kind(),
        ErrorKind::Conflict
    );
    assert_eq!(ConstraintError::CommitConflict(String::new()).kind(), ErrorKind::Conflict);
    assert_eq!(ConstraintError::CommitFailure(String::new()).kind(), ErrorKind::Commit);
    assert_eq!(ConstraintError::Serialization(String::new()).kind(), ErrorKind::Serialization);
    for failure in [
        ValidationFailure::Violation(String::new()),
        ValidationFailure::Read(String::new()),
        ValidationFailure::Scan(String::new()),
        ValidationFailure::Aborted(String::new()),
    ] {
        assert_eq!(ConstraintError::Validation(failure).kind(), ErrorKind::Validation);
    }
}
