use gitlab_search::resolve::{combine_outcomes, FailurePolicy, Selector};
use gitlab_search::Project;

fn project(id: i64, name: &str) -> Project {
    Project { id, name: name.to_string(), web_url: format!("https://git.example.com/g/{}", name) }
}

fn ids_of(projects: &[Project]) -> Vec<i64> {
    projects.iter().map(|p| p.id).collect()
}

#[test]
fn by_ids_all_valid_yields_every_project() {
    let outcomes = vec![
        Ok(vec![project(1, "one")]),
        Ok(vec![project(2, "two")]),
        Ok(vec![project(3, "three")]),
    ];
    let r = combine_outcomes(Selector::Ids(vec![1, 2, 3]).policy(), outcomes).unwrap();
    assert_eq!(r.len(), 3);
    let mut ids = ids_of(&r);
    ids.sort();
    assert_eq!(ids, vec![1, 2, 3]);
}

#[test]
fn by_ids_one_failure_fails_everything() {
    let outcomes = vec![
        Ok(vec![project(1, "one")]),
        Err("404 Not Found".to_string()),
        Ok(vec![project(3, "three")]),
    ];
    let r = combine_outcomes(FailurePolicy::FailFast, outcomes);
    assert_eq!(r.unwrap_err(), "404 Not Found");
}

#[test]
fn fail_fast_reports_first_failure() {
    let outcomes: Vec<Result<Vec<Project>, String>> = vec![
        Ok(vec![project(1, "one")]),
        Err("first".to_string()),
        Err("second".to_string()),
    ];
    let r = combine_outcomes(FailurePolicy::FailFast, outcomes);
    assert_eq!(r.unwrap_err(), "first");
}

#[test]
fn by_groups_keeps_duplicates() {
    let outcomes = vec![Ok(vec![project(1, "a"), project(2, "b")]), Ok(vec![project(2, "b")])];
    let r = combine_outcomes(Selector::GroupIds(vec![10, 20]).policy(), outcomes).unwrap();
    assert_eq!(ids_of(&r), vec![1, 2, 2]);
    assert_eq!(r[0].name, "a");
    assert_eq!(r[1].name, "b");
    assert_eq!(r[2].name, "b");
}

#[test]
fn best_effort_skips_failed_groups() {
    let outcomes = vec![
        Err("timeout".to_string()),
        Ok(vec![project(7, "seven")]),
        Err("decode".to_string()),
        Ok(vec![project(8, "eight")]),
    ];
    let r = combine_outcomes(FailurePolicy::BestEffort, outcomes).unwrap();
    assert_eq!(ids_of(&r), vec![7, 8]);
}

#[test]
fn no_outcomes_resolve_to_nothing() {
    let none: Vec<Result<Vec<Project>, String>> = Vec::new();
    assert_eq!(combine_outcomes(FailurePolicy::FailFast, none).unwrap().len(), 0);
    let none: Vec<Result<Vec<Project>, String>> = Vec::new();
    assert_eq!(combine_outcomes(FailurePolicy::BestEffort, none).unwrap().len(), 0);
}

#[test]
fn policies_per_selector() {
    assert_eq!(Selector::Ids(vec![1]).policy(), FailurePolicy::FailFast);
    assert_eq!(Selector::GroupIds(vec![1]).policy(), FailurePolicy::BestEffort);
    assert_eq!(Selector::Name("x".to_string()).policy(), FailurePolicy::BestEffort);
}
