use autogoals::goals::Goal;
use autogoals::goals::GoalsFile;
use autogoals::status::GoalStatus;
use autogoals::status::StatusClass;

// Reads a goal document the way the program does: a top-level `goals`
// sequence, a missing or non-string `status` tolerated as an unrecognized
// one, unknown extra fields ignored.
fn load(text: &str) -> Option<GoalsFile> {
    let root: serde_yaml::Value = serde_yaml::from_str(text).ok()?;
    let seq = root.get("goals")?.as_sequence()?;
    let mut goals: Vec<Goal> = Vec::new();
    for item in seq {
        let id = item.get("id").and_then(|v| v.as_str())?.to_string();
        let description = item.get("description").and_then(|v| v.as_str())?.to_string();
        let status = item.get("status").and_then(|v| v.as_str()).unwrap_or("");
        let plan = item
            .get("plan")
            .and_then(|v| v.as_str())
            .map(|s| s.to_string());
        goals.push(Goal {
            id,
            description,
            status: GoalStatus::parse(status),
            plan,
        });
    }
    Some(GoalsFile { goals })
}

const DOCUMENT: &str = "goals:\n  - id: g1\n    description: first goal\n    status: completed\n    plan: already done\n  - id: g2\n    description: second goal\n    status: in_progress\n  - id: g3\n    description: third goal\n    status: someday_maybe\n";

#[test]
fn reading_the_same_document_twice_yields_equal_goal_sets() {
    let a = load(DOCUMENT).unwrap();
    let b = load(DOCUMENT).unwrap();
    assert_eq!(a, b);
    assert_eq!(a.count_by_status(), b.count_by_status());
    assert_eq!(a.has_pending_work(), b.has_pending_work());
}

#[test]
fn document_fields_land_in_the_records() {
    let gs = load(DOCUMENT).unwrap();
    assert_eq!(gs.goals.len(), 3);
    assert_eq!(gs.goals[0].id, "g1");
    assert_eq!(gs.goals[0].description, "first goal");
    assert_eq!(gs.goals[0].status, GoalStatus::Completed);
    assert_eq!(gs.goals[0].plan.as_deref(), Some("already done"));
    assert_eq!(gs.goals[1].status, GoalStatus::InProgress);
    assert_eq!(gs.goals[1].plan, None);
    assert_eq!(gs.goals[2].status, GoalStatus::Unrecognized);
}

#[test]
fn missing_or_malformed_status_classifies_pending() {
    let text = "goals:\n  - id: g1\n    description: no status at all\n  - id: g2\n    description: status is a list\n    status:\n      - odd\n";
    let gs = load(text).unwrap();
    assert_eq!(gs.goals[0].status, GoalStatus::Unrecognized);
    assert_eq!(gs.goals[0].status.classify(), StatusClass::Pending);
    assert_eq!(gs.goals[1].status, GoalStatus::Unrecognized);
    assert_eq!(gs.count_by_status(), (0, 0, 2));
    assert!(!gs.has_pending_work());
}

#[test]
fn unknown_extra_fields_are_tolerated() {
    let text = "version: 2\ngoals:\n  - id: g1\n    description: a goal\n    status: pending\n    priority: high\n";
    let gs = load(text).unwrap();
    assert_eq!(gs.goals.len(), 1);
    assert_eq!(gs.goals[0].status, GoalStatus::Pending);
    assert!(gs.has_pending_work());
}

#[test]
fn malformed_document_is_refused() {
    assert!(load("goals: [").is_none());
    assert!(load("no_goals_here: true").is_none());
    assert!(load("goals: 7").is_none());
}
