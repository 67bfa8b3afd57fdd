use autogoals::status::GoalStatus;
use autogoals::status::StatusClass;

#[test]
fn parses_each_recognized_status() {
    assert_eq!(GoalStatus::parse("not_started"), GoalStatus::NotStarted);
    assert_eq!(GoalStatus::parse("pending"), GoalStatus::Pending);
    assert_eq!(
        GoalStatus::parse("ready_for_execution"),
        GoalStatus::ReadyForExecution
    );
    assert_eq!(GoalStatus::parse("in_progress"), GoalStatus::InProgress);
    assert_eq!(
        GoalStatus::parse("ready_for_verification"),
        GoalStatus::ReadyForVerification
    );
    assert_eq!(GoalStatus::parse("completed"), GoalStatus::Completed);
}

#[test]
fn unrecognized_strings_parse_to_fallback_and_classify_pending() {
    assert_eq!(GoalStatus::parse(""), GoalStatus::Unrecognized);
    assert_eq!(GoalStatus::parse("done"), GoalStatus::Unrecognized);
    assert_eq!(GoalStatus::parse("Completed"), GoalStatus::Unrecognized);
    assert_eq!(GoalStatus::parse("completed "), GoalStatus::Unrecognized);
    assert_eq!(GoalStatus::parse("PENDING"), GoalStatus::Unrecognized);
    assert_eq!(GoalStatus::parse("done").classify(), StatusClass::Pending);
    assert_eq!(GoalStatus::parse("").classify(), StatusClass::Pending);
}

#[test]
fn classification_buckets() {
    assert_eq!(GoalStatus::Completed.classify(), StatusClass::Completed);
    assert_eq!(GoalStatus::InProgress.classify(), StatusClass::Active);
    assert_eq!(GoalStatus::ReadyForExecution.classify(), StatusClass::Active);
    assert_eq!(
        GoalStatus::ReadyForVerification.classify(),
        StatusClass::Active
    );
    assert_eq!(GoalStatus::NotStarted.classify(), StatusClass::Pending);
    assert_eq!(GoalStatus::Pending.classify(), StatusClass::Pending);
    assert_eq!(GoalStatus::Unrecognized.classify(), StatusClass::Pending);
}

#[test]
fn pending_work_is_the_fixed_four_state_set() {
    assert!(GoalStatus::Pending.is_pending_work());
    assert!(GoalStatus::ReadyForExecution.is_pending_work());
    assert!(GoalStatus::InProgress.is_pending_work());
    assert!(GoalStatus::ReadyForVerification.is_pending_work());
    assert!(!GoalStatus::Completed.is_pending_work());
    assert!(!GoalStatus::NotStarted.is_pending_work());
    assert!(!GoalStatus::Unrecognized.is_pending_work());
}
