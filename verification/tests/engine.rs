use renamer::plan::Action;
use renamer::plan::Plan;
use renamer::plan::PlanError;

#[test]
fn preview_reports_changed_name() {
    let plan = Plan::new("a", "z").unwrap();
    match plan.decide("a.txt", false) {
        Action::Report(line) => assert_eq!(line, "a.txt -> z.txt"),
        other => panic!("expected a report, got {:?}", other),
    }
}

#[test]
fn preview_is_silent_on_identity() {
    let plan = Plan::new("a", "z").unwrap();
    assert_eq!(plan.decide("b.txt", false), Action::Keep);
}

#[test]
fn apply_renames_changed_name() {
    let plan = Plan::new("a", "z").unwrap();
    let action = plan.decide("a.txt", true);
    assert_eq!(
        action,
        Action::Rename { old: "a.txt".to_string(), new: "z.txt".to_string() }
    );
}

#[test]
fn apply_performs_identity_rename() {
    let plan = Plan::new("a", "z").unwrap();
    let action = plan.decide("b.txt", true);
    assert_eq!(
        action,
        Action::Rename { old: "b.txt".to_string(), new: "b.txt".to_string() }
    );
}

#[test]
fn capture_group_backreference() {
    let plan = Plan::new(r"(\w+)\.txt", "$1.bak").unwrap();
    let action = plan.decide("report.txt", true);
    assert_eq!(
        action,
        Action::Rename { old: "report.txt".to_string(), new: "report.bak".to_string() }
    );
}

#[test]
fn only_first_match_is_replaced() {
    let plan = Plan::new("a", "z").unwrap();
    match plan.decide("aa.txt", false) {
        Action::Report(line) => assert_eq!(line, "aa.txt -> za.txt"),
        other => panic!("expected a report, got {:?}", other),
    }
}

#[test]
fn bad_from_pattern_is_rejected() {
    match Plan::new("(", "x") {
        Err(PlanError::BadFrom(_)) => {}
        Err(other) => panic!("expected a bad-from error, got {:?}", other),
        Ok(_) => panic!("expected a bad-from error, got a plan"),
    }
}

#[test]
fn bad_to_template_is_rejected() {
    match Plan::new("x", "(") {
        Err(PlanError::BadTo(_)) => {}
        Err(other) => panic!("expected a bad-to error, got {:?}", other),
        Ok(_) => panic!("expected a bad-to error, got a plan"),
    }
}

#[test]
fn second_apply_run_is_identity() {
    let plan = Plan::new("a", "z").unwrap();
    let first = plan.decide("a.txt", true);
    let renamed = match first {
        Action::Rename { new, .. } => new,
        other => panic!("expected a rename, got {:?}", other),
    };
    assert_eq!(renamed, "z.txt");
    let second = plan.decide(&renamed, true);
    assert_eq!(
        second,
        Action::Rename { old: "z.txt".to_string(), new: "z.txt".to_string() }
    );
}
