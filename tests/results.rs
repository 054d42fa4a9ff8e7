use gitlab_search::{aggregate, finish_search, get_len, start_search, Project, SearchBlob};

fn project(id: i64, name: &str, web_url: &str) -> Project {
    Project { id, name: name.to_string(), web_url: web_url.to_string() }
}

fn blob(project_id: i64, data: &str, r: &str, filename: &str) -> SearchBlob {
    SearchBlob { project_id, data: data.to_string(), ref_: r.to_string(), filename: filename.to_string() }
}

#[test]
fn started_search_is_empty() {
    let p = project(4, "four", "https://h/g/four");
    let sr = start_search(&p);
    assert_eq!(sr.id, 4);
    assert_eq!(sr.name, "four");
    assert_eq!(sr.count, 0);
    assert_eq!(sr.error, "");
    assert!(sr.search_blob_list.is_empty());
    assert!(sr.result_list.is_empty());
    assert!(!sr.failed());
}

#[test]
fn successful_search_counts_matches() {
    let p = project(4, "four", "https://h/g/four");
    let mut sr = start_search(&p);
    finish_search(&mut sr, Ok(vec![blob(4, "a", "main", "x.rs"), blob(4, "b", "main", "y.rs")]));
    assert_eq!(sr.count, 2);
    assert_eq!(sr.error, "");
    assert_eq!(sr.search_blob_list.len(), 2);
}

#[test]
fn search_without_matches_counts_zero() {
    let p = project(4, "four", "https://h/g/four");
    let mut sr = start_search(&p);
    finish_search(&mut sr, Ok(Vec::new()));
    assert_eq!(sr.count, 0);
    assert!(sr.error.is_empty());
}

#[test]
fn failed_search_sets_sentinel() {
    let p = project(4, "four", "https://h/g/four");
    let mut sr = start_search(&p);
    finish_search(&mut sr, Err("operation timed out".to_string()));
    assert_eq!(sr.count, -1);
    assert_eq!(sr.error, "operation timed out");
    assert!(sr.search_blob_list.is_empty());
    assert!(sr.failed());
}

#[test]
fn result_list_links_each_match() {
    let projects = vec![project(1, "alpha", "https://h/g/alpha"), project(2, "beta", "https://h/g/beta")];
    let mut a = start_search(&projects[0]);
    finish_search(&mut a, Ok(vec![blob(1, "let x", "main", "src/lib.rs"), blob(1, "let y", "dev", "a/b.rs")]));
    let mut b = start_search(&projects[1]);
    finish_search(&mut b, Err("500".to_string()));
    let out = aggregate(&projects, vec![b, a]);
    assert_eq!(out.len(), 2);
    assert_eq!(out[0].id, 2);
    assert!(out[0].result_list.is_empty());
    assert_eq!(out[1].id, 1);
    assert_eq!(out[1].result_list.len(), 2);
    assert_eq!(out[1].result_list[0].url, "https://h/g/alpha/-/blob/main/src/lib.rs");
    assert_eq!(out[1].result_list[0].name, "alpha");
    assert_eq!(out[1].result_list[0].data, "let x");
    assert_eq!(out[1].result_list[1].url, "https://h/g/alpha/-/blob/dev/a/b.rs");
    assert_eq!(out[1].result_list[1].data, "let y");
}

#[test]
fn duplicate_projects_are_linked_independently() {
    let projects = vec![project(1, "a", "https://h/a"), project(2, "b", "https://h/b"), project(2, "b", "https://h/b")];
    let mut results = Vec::new();
    for p in &projects {
        let mut sr = start_search(p);
        finish_search(&mut sr, Ok(vec![blob(p.id, "d", "main", "f")]));
        results.push(sr);
    }
    let out = aggregate(&projects, results);
    assert_eq!(out.len(), 3);
    assert_eq!(out[1].result_list[0].url, "https://h/b/-/blob/main/f");
    assert_eq!(out[2].result_list[0].url, "https://h/b/-/blob/main/f");
}

#[test]
fn result_without_project_is_untouched() {
    let projects = vec![project(1, "a", "https://h/a")];
    let mut sr = start_search(&project(9, "nine", "https://h/nine"));
    finish_search(&mut sr, Ok(vec![blob(9, "d", "main", "f")]));
    let out = aggregate(&projects, vec![sr]);
    assert_eq!(out[0].count, 1);
    assert!(out[0].result_list.is_empty());
}

#[test]
fn column_width_has_a_floor() {
    assert_eq!(get_len(&Vec::new()), 30);
    assert_eq!(get_len(&vec![project(1, "short", "u")]), 30);
    let long = "x".repeat(42);
    assert_eq!(get_len(&vec![project(1, "short", "u"), project(2, &long, "u")]), 42);
}
