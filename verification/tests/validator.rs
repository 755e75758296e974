use table_constraints::error::ValidationFailure;
use table_constraints::validator::{aggregate, BatchEvent, PartitionCheck};

fn violation(text: &str) -> ValidationFailure {
    ValidationFailure::Violation(text.to_string())
}

fn aborted(text: &str) -> ValidationFailure {
    ValidationFailure::Aborted(text.to_string())
}

fn after(events: Vec<BatchEvent>) -> PartitionCheck {
    let mut check = PartitionCheck::new();
    for event in events {
        check = check.observe(event);
    }
    check
}

#[test]
fn new_check_wants_a_batch() {
    let check = PartitionCheck::new();
    assert!(check.wants_batch());
    assert_eq!(check.into_outcome(), None);
}

#[test]
fn check_goes_on_while_batches_pass() {
    let check = after(vec![BatchEvent::Passed, BatchEvent::Passed, BatchEvent::Passed]);
    assert!(check.wants_batch());
    assert_eq!(check.into_outcome(), None);
}

#[test]
fn check_succeeds_when_the_partition_is_exhausted() {
    let check = after(vec![BatchEvent::Passed, BatchEvent::Exhausted]);
    assert!(!check.wants_batch());
    assert_eq!(check.into_outcome(), Some(Ok(())));
    assert_eq!(after(vec![BatchEvent::Exhausted]).into_outcome(), Some(Ok(())));
}

#[test]
fn check_fails_at_the_first_violation() {
    let check = after(vec![BatchEvent::Passed, BatchEvent::Violated("row 7".to_string())]);
    assert!(!check.wants_batch());
    assert_eq!(check.into_outcome(), Some(Err(violation("row 7"))));
}

#[test]
fn check_fails_when_a_batch_cannot_be_read() {
    let check = after(vec![BatchEvent::Unreadable("truncated file".to_string())]);
    assert!(!check.wants_batch());
    assert_eq!(
        check.into_outcome(),
        Some(Err(ValidationFailure::Read("truncated file".to_string())))
    );
}

#[test]
fn check_keeps_its_outcome() {
    let failed = after(vec![
        BatchEvent::Violated("first".to_string()),
        BatchEvent::Violated("second".to_string()),
        BatchEvent::Passed,
        BatchEvent::Exhausted,
        BatchEvent::Unreadable("third".to_string()),
    ]);
    assert_eq!(failed.into_outcome(), Some(Err(violation("first"))));
    let passed = after(vec![
        BatchEvent::Exhausted,
        BatchEvent::Violated("late".to_string()),
        BatchEvent::Passed,
    ]);
    assert_eq!(passed.into_outcome(), Some(Ok(())));
}

#[test]
fn no_partition_passes() {
    assert_eq!(aggregate(&vec![]), Ok(()));
}

#[test]
fn all_partitions_passing_pass() {
    assert_eq!(aggregate(&vec![Ok(())]), Ok(()));
    assert_eq!(aggregate(&vec![Ok(()), Ok(()), Ok(())]), Ok(()));
}

#[test]
fn one_failure_fails_the_table() {
    assert_eq!(aggregate(&vec![Err(violation("a"))]), Err(violation("a")));
    assert_eq!(aggregate(&vec![Ok(()), Ok(()), Err(violation("a"))]), Err(violation("a")));
    assert_eq!(aggregate(&vec![Err(violation("a")), Ok(()), Ok(())]), Err(violation("a")));
}

#[test]
fn lowest_partition_is_reported() {
    let outcomes = vec![
        Ok(()),
        Err(ValidationFailure::Read("b".to_string())),
        Err(violation("c")),
        Ok(()),
        Err(ValidationFailure::Scan("e".to_string())),
    ];
    assert_eq!(aggregate(&outcomes), Err(ValidationFailure::Read("b".to_string())));
}

#[test]
fn task_without_result_is_reported_first() {
    let outcomes = vec![Ok(()), Err(violation("b")), Ok(()), Err(aborted("d")), Err(aborted("e"))];
    assert_eq!(aggregate(&outcomes), Err(aborted("d")));
    assert_eq!(aggregate(&vec![Err(aborted("a")), Err(violation("b"))]), Err(aborted("a")));
    assert_eq!(aggregate(&vec![Ok(()), Err(aborted("b"))]), Err(aborted("b")));
}

#[test]
fn outcomes_are_left_as_they_were() {
    let outcomes = vec![Ok(()), Err(violation("b"))];
    let _ = aggregate(&outcomes);
    assert_eq!(outcomes, vec![Ok(()), Err(violation("b"))]);
    assert_eq!(violation("b").clone(), violation("b"));
}
