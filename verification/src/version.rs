//! Which version a project runs with, given the groups it may refer to.

use crate::config::{Group, GroupView, Project, ProjectView};
use vstd::prelude::*;

verus! {

/// The version of the first of `groups` that is named `name`; `None` where
/// none is.
pub open spec fn group_version(groups: Seq<GroupView>, name: Seq<char>) -> Option<
    Option<Seq<char>>,
>
    decreases groups.len(),
{
    if groups.len() == 0 {
        None
    } else if groups[0].name == name {
        Some(groups[0].version)
    } else {
        group_version(groups.drop_first(), name)
    }
}

/// The version that a project with `version` runs with: that of the first
/// group that `version` names, and `version` itself where it names none.
pub open spec fn effective_version(version: Option<Seq<char>>, groups: Seq<GroupView>) -> Option<
    Seq<char>,
> {
    match version {
        Some(literal) => match group_version(groups, literal) {
            Some(pinned) => pinned,
            None => Some(literal),
        },
        None => None,
    }
}

/// Among groups of one name the first wins: where `groups[i]` is named
/// `name` and no group before it is, its version is the one looked up.
pub proof fn lemma_first_match_wins(groups: Seq<GroupView>, name: Seq<char>, i: int)
    requires
        0 <= i < groups.len(),
        groups[i].name == name,
        forall|j: int| 0 <= j < i ==> groups[j].name != name,
    ensures
        group_version(groups, name) == Some(groups[i].version),
    decreases i,
{
    if i > 0 {
        let rest = groups.drop_first();
        assert(rest[i - 1] == groups[i]);
        assert forall|j: int| 0 <= j < i - 1 implies rest[j].name != name by {
            assert(rest[j] == groups[j + 1]);
        }
        lemma_first_match_wins(rest, name, i - 1);
    }
}

/// A version that names no group is passed through unchanged.
pub proof fn lemma_no_match_passes(groups: Seq<GroupView>, literal: Seq<char>)
    requires
        forall|j: int| 0 <= j < groups.len() ==> groups[j].name != literal,
    ensures
        effective_version(Some(literal), groups) == Some(literal),
    decreases groups.len(),
{
    if groups.len() > 0 {
        let rest = groups.drop_first();
        assert(groups[0].name != literal);
        assert forall|j: int| 0 <= j < rest.len() implies rest[j].name != literal by {
            assert(rest[j] == groups[j + 1]);
        }
        lemma_no_match_passes(rest, literal);
    }
}

/// The version that a project with `version` runs with, given `groups`.
pub fn resolve_version(version: &Option<String>, groups: &Vec<Group>) -> (effective: Option<String>)
    ensures
        effective.deep_view() == effective_version(version.deep_view(), groups.deep_view()),
{
    match version {
        None => None,
        Some(literal) => {
            let ghost all = groups.deep_view();
            let mut i: usize = 0;
            assert(all.skip(0) =~= all);
            while i < groups.len()
                invariant
                    i <= groups.len(),
                    all == groups.deep_view(),
                    version.deep_view() == Some(literal@),
                    group_version(all, literal@) == group_version(all.skip(i as int), literal@),
                decreases groups.len() - i,
            {
                let group = &groups[i];
                assert(all.skip(i as int)[0] == group.deep_view());
                if group.name == *literal {
                    let pinned = group.version.clone();
                    assert(pinned == group.version);
                    assert(group_version(all.skip(i as int), literal@) == Some(
                        group.deep_view().version,
                    ));
                    return pinned;
                }
                assert(all.skip(i as int).drop_first() =~= all.skip(i + 1));
                i += 1;
            }
            Some(literal.clone())
        },
    }
}

/// One call of the project-version sync: the directory of a project, and
/// the version to pin there.
#[derive(Debug, PartialEq, Eq)]
pub struct SyncRequest {
    pub path: String,
    pub version: String,
}

/// The mathematical content of a [`SyncRequest`].
pub ghost struct SyncRequestView {
    pub path: Seq<char>,
    pub version: Seq<char>,
}

impl DeepView for SyncRequest {
    type V = SyncRequestView;

    open spec fn deep_view(&self) -> SyncRequestView {
        SyncRequestView { path: self.path@, version: self.version@ }
    }
}

impl View for SyncRequest {
    type V = SyncRequestView;

    open spec fn view(&self) -> SyncRequestView {
        self.deep_view()
    }
}

impl Clone for SyncRequest {
    fn clone(&self) -> (copy: SyncRequest)
        ensures
            copy == *self,
    {
        SyncRequest { path: self.path.clone(), version: self.version.clone() }
    }
}

/// The sync that `project` owes: its directory with the version it runs
/// with, and none where it runs with no version.
pub open spec fn sync_of(project: ProjectView, groups: Seq<GroupView>) -> Option<SyncRequestView> {
    match effective_version(project.version, groups) {
        Some(version) => Some(SyncRequestView { path: project.path, version }),
        None => None,
    }
}

/// The syncs that `projects` owe, in the order of `projects`.
pub open spec fn syncs_of(projects: Seq<ProjectView>, groups: Seq<GroupView>) -> Seq<
    SyncRequestView,
>
    decreases projects.len(),
{
    if projects.len() == 0 {
        seq![]
    } else {
        match sync_of(projects.last(), groups) {
            Some(request) => syncs_of(projects.drop_last(), groups).push(request),
            None => syncs_of(projects.drop_last(), groups),
        }
    }
}

/// The sync that `project` owes, given `groups`.
pub fn sync_request(project: &Project, groups: &Vec<Group>) -> (request: Option<SyncRequest>)
    ensures
        request.deep_view() == sync_of(project.deep_view(), groups.deep_view()),
{
    match resolve_version(&project.version, groups) {
        Some(version) => Some(SyncRequest { path: project.path.clone(), version }),
        None => None,
    }
}

/// The syncs that `projects` owe, in the order of `projects`.
pub fn sync_requests(projects: &Vec<Project>, groups: &Vec<Group>) -> (requests: Vec<SyncRequest>)
    ensures
        requests.deep_view() == syncs_of(projects.deep_view(), groups.deep_view()),
{
    let ghost all = projects.deep_view();
    let ghost pins = groups.deep_view();
    let mut requests: Vec<SyncRequest> = Vec::new();
    let mut i: usize = 0;
    assert(all.take(0) =~= Seq::<ProjectView>::empty());
    assert(requests.deep_view() =~= Seq::<SyncRequestView>::empty());
    while i < projects.len()
        invariant
            i <= projects.len(),
            all == projects.deep_view(),
            pins == groups.deep_view(),
            requests.deep_view() == syncs_of(all.take(i as int), pins),
        decreases projects.len() - i,
    {
        let ghost before = requests.deep_view();
        assert(all[i as int] == projects[i as int].deep_view());
        assert(all.take(i + 1).drop_last() =~= all.take(i as int));
        match sync_request(&projects[i], groups) {
            Some(request) => {
                requests.push(request);
                assert(requests.deep_view() =~= before.push(request.deep_view()));
            },
            None => {},
        }
        i += 1;
    }
    assert(all.take(projects.len() as int) =~= all);
    requests
}

} // verus!
