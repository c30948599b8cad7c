use nvm_desktop::config::{clone_groups, clone_projects, Draft, Group, Project};

#[test]
fn new_store_has_nothing_staged() {
    let store = Draft::new(3);
    assert_eq!(store, Draft { data: 3, draft: None });
    assert_eq!(*store.data(), 3);
    assert_eq!(*store.latest(), 3);
}

#[test]
fn staged_value_is_latest_but_not_committed() {
    let mut store = Draft::new(3);
    store.stage(4);
    assert_eq!(store, Draft { data: 3, draft: Some(4) });
    assert_eq!(*store.data(), 3);
    assert_eq!(*store.latest(), 4);
    store.stage(5);
    assert_eq!(store, Draft { data: 3, draft: Some(5) });
}

#[test]
fn apply_commits_the_staged_value() {
    let mut store = Draft::new(3);
    store.stage(4);
    assert_eq!(store.apply(), Some(3));
    assert_eq!(store, Draft { data: 4, draft: None });
}

#[test]
fn apply_without_draft_changes_nothing() {
    let mut store = Draft::new(3);
    assert_eq!(store.apply(), None);
    assert_eq!(store, Draft { data: 3, draft: None });
}

#[test]
fn discard_drops_the_staged_value() {
    let mut store = Draft::new(3);
    store.stage(4);
    assert_eq!(store.discard(), Some(4));
    assert_eq!(store, Draft { data: 3, draft: None });
    assert_eq!(store.discard(), None);
    assert_eq!(store, Draft { data: 3, draft: None });
}

#[test]
fn lists_are_copied_item_by_item() {
    let projects = vec![
        Project { path: "/a".to_string(), version: Some("lts".to_string()) },
        Project { path: "/b".to_string(), version: None },
    ];
    assert_eq!(clone_projects(&projects), projects);
    assert_eq!(clone_projects(&Vec::new()), Vec::new());
    let groups = vec![Group { name: "lts".to_string(), version: Some("20.9.0".to_string()) }];
    assert_eq!(clone_groups(&groups), groups);
    assert_eq!(projects[0].clone(), projects[0]);
    assert_eq!(groups[0].clone(), groups[0]);
}
