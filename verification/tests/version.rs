use nvm_desktop::config::{Group, Project};
use nvm_desktop::version::{resolve_version, sync_request, sync_requests, SyncRequest};

fn text(value: &str) -> Option<String> {
    Some(value.to_string())
}

fn group(name: &str, version: Option<&str>) -> Group {
    Group { name: name.to_string(), version: version.map(|v| v.to_string()) }
}

fn project(path: &str, version: Option<&str>) -> Project {
    Project { path: path.to_string(), version: version.map(|v| v.to_string()) }
}

fn request(path: &str, version: &str) -> SyncRequest {
    SyncRequest { path: path.to_string(), version: version.to_string() }
}

#[test]
fn group_name_resolves_to_group_version() {
    let groups = vec![group("lts", Some("20.9.0"))];
    assert_eq!(resolve_version(&text("lts"), &groups), text("20.9.0"));
}

#[test]
fn literal_version_is_unchanged() {
    let groups = vec![group("lts", Some("20.9.0"))];
    assert_eq!(resolve_version(&text("20.9.0"), &groups), text("20.9.0"));
}

#[test]
fn near_miss_of_a_group_name_is_passed_through() {
    let groups = vec![group("lts", Some("20.9.0"))];
    assert_eq!(resolve_version(&text("LTS"), &groups), text("LTS"));
    assert_eq!(resolve_version(&text("lts "), &groups), text("lts "));
    assert_eq!(resolve_version(&text("lt"), &groups), text("lt"));
    assert_eq!(resolve_version(&text(""), &groups), text(""));
}

#[test]
fn no_groups_pass_every_version_through() {
    assert_eq!(resolve_version(&text("lts"), &Vec::new()), text("lts"));
    assert_eq!(resolve_version(&None, &Vec::new()), None);
}

#[test]
fn project_without_version_stays_without() {
    let groups = vec![group("lts", Some("20.9.0"))];
    assert_eq!(resolve_version(&None, &groups), None);
}

#[test]
fn first_group_of_a_name_wins() {
    let groups = vec![
        group("other", Some("16.0.0")),
        group("lts", Some("20.9.0")),
        group("lts", Some("18.0.0")),
    ];
    assert_eq!(resolve_version(&text("lts"), &groups), text("20.9.0"));
    assert_eq!(resolve_version(&text("other"), &groups), text("16.0.0"));
}

#[test]
fn group_without_version_resolves_to_none() {
    let groups = vec![group("empty", None), group("empty", Some("18.0.0"))];
    assert_eq!(resolve_version(&text("empty"), &groups), None);
}

#[test]
fn group_version_is_not_resolved_again() {
    let groups = vec![group("a", Some("b")), group("b", Some("20.0.0"))];
    assert_eq!(resolve_version(&text("a"), &groups), text("b"));
}

#[test]
fn sync_of_one_project() {
    let groups = vec![group("lts", Some("20.9.0")), group("empty", None)];
    assert_eq!(
        sync_request(&project("/work/a", Some("lts")), &groups),
        Some(request("/work/a", "20.9.0"))
    );
    assert_eq!(
        sync_request(&project("/work/b", Some("18.1.0")), &groups),
        Some(request("/work/b", "18.1.0"))
    );
    assert_eq!(sync_request(&project("/work/c", None), &groups), None);
    assert_eq!(sync_request(&project("/work/d", Some("empty")), &groups), None);
}

#[test]
fn syncs_in_project_order() {
    let groups = vec![group("lts", Some("20.9.0")), group("empty", None)];
    let projects = vec![
        project("/work/a", Some("lts")),
        project("/work/b", None),
        project("/work/c", Some("18.1.0")),
        project("/work/d", Some("empty")),
        project("/work/e", Some("lts")),
    ];
    assert_eq!(
        sync_requests(&projects, &groups),
        vec![
            request("/work/a", "20.9.0"),
            request("/work/c", "18.1.0"),
            request("/work/e", "20.9.0"),
        ]
    );
    assert!(sync_requests(&Vec::new(), &groups).is_empty());
}

#[test]
fn sync_request_is_copied_field_by_field() {
    let owed = request("/work/a", "20.9.0");
    assert_eq!(owed.clone(), owed);
}
