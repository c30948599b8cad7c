//! The live configuration: projects, groups and settings, each changed
//! through a staged draft.

use crate::settings::{ISettings, SettingsView};
use vstd::prelude::*;

verus! {

/// A project: a directory, and the version it runs with, which is either
/// a version or the name of a [`Group`].
#[derive(Debug, PartialEq, Eq)]
pub struct Project {
    pub path: String,
    pub version: Option<String>,
}

/// The mathematical content of a [`Project`].
pub ghost struct ProjectView {
    pub path: Seq<char>,
    pub version: Option<Seq<char>>,
}

impl DeepView for Project {
    type V = ProjectView;

    open spec fn deep_view(&self) -> ProjectView {
        ProjectView { path: self.path@, version: self.version.deep_view() }
    }
}

impl View for Project {
    type V = ProjectView;

    open spec fn view(&self) -> ProjectView {
        self.deep_view()
    }
}

impl Clone for Project {
    fn clone(&self) -> (copy: Project)
        ensures
            copy == *self,
    {
        Project { path: self.path.clone(), version: self.version.clone() }
    }
}

/// A group: a name that projects can give in place of a version, and the
/// version that it stands for.
#[derive(Debug, PartialEq, Eq)]
pub struct Group {
    pub name: String,
    pub version: Option<String>,
}

/// The mathematical content of a [`Group`].
pub ghost struct GroupView {
    pub name: Seq<char>,
    pub version: Option<Seq<char>>,
}

impl DeepView for Group {
    type V = GroupView;

    open spec fn deep_view(&self) -> GroupView {
        GroupView { name: self.name@, version: self.version.deep_view() }
    }
}

impl View for Group {
    type V = GroupView;

    open spec fn view(&self) -> GroupView {
        self.deep_view()
    }
}

impl Clone for Group {
    fn clone(&self) -> (copy: Group)
        ensures
            copy == *self,
    {
        Group { name: self.name.clone(), version: self.version.clone() }
    }
}

/// A value that is changed in two moves: a new value is staged as a draft,
/// then the draft is applied. Until then the committed value stands.
#[derive(Debug, PartialEq, Eq)]
pub struct Draft<T> {
    /// The committed value.
    pub data: T,
    /// The staged value, if one is staged.
    pub draft: Option<T>,
}

impl<T> Draft<T> {
    /// The staged value where one is staged, else the committed value.
    pub open spec fn latest_value(&self) -> T {
        match self.draft {
            Some(staged) => staged,
            None => self.data,
        }
    }

    /// A store that holds `data`, with nothing staged.
    pub fn new(data: T) -> (store: Draft<T>)
        ensures
            store == (Draft { data, draft: None }),
    {
        Draft { data, draft: None }
    }

    /// The committed value.
    pub fn data(&self) -> (value: &T)
        ensures
            *value == self.data,
    {
        &self.data
    }

    /// The staged value where one is staged, else the committed value.
    pub fn latest(&self) -> (value: &T)
        ensures
            *value == self.latest_value(),
    {
        match &self.draft {
            Some(staged) => staged,
            None => &self.data,
        }
    }

    /// Stages `value`, in place of what was staged before. The committed
    /// value stands.
    pub fn stage(&mut self, value: T)
        ensures
            *final(self) == (Draft { data: old(self).data, draft: Some(value) }),
    {
        self.draft = Some(value);
    }

    /// Commits the staged value and returns the value that it replaces;
    /// with nothing staged, changes nothing and returns `None`.
    pub fn apply(&mut self) -> (replaced: Option<T>)
        ensures
            final(self).draft is None,
            final(self).data == old(self).latest_value(),
            replaced == match old(self).draft {
                Some(_) => Some(old(self).data),
                None => None,
            },
    {
        match self.draft.take() {
            Some(staged) => {
                let mut replaced = staged;
                core::mem::swap(&mut self.data, &mut replaced);
                Some(replaced)
            },
            None => None,
        }
    }

    /// Drops the staged value and returns it. The committed value stands.
    pub fn discard(&mut self) -> (dropped: Option<T>)
        ensures
            *final(self) == (Draft { data: old(self).data, draft: None }),
            dropped == old(self).draft,
    {
        self.draft.take()
    }
}

impl<T: DeepView> DeepView for Draft<T> {
    type V = Draft<T::V>;

    open spec fn deep_view(&self) -> Draft<T::V> {
        Draft { data: self.data.deep_view(), draft: self.draft.deep_view() }
    }
}

/// The live configuration.
#[derive(Debug, PartialEq, Eq)]
pub struct Config {
    pub settings: Draft<ISettings>,
    pub projects: Draft<Option<Vec<Project>>>,
    pub groups: Draft<Option<Vec<Group>>>,
}

/// The mathematical content of a [`Config`].
pub ghost struct ConfigView {
    pub settings: Draft<SettingsView>,
    pub projects: Draft<Option<Seq<ProjectView>>>,
    pub groups: Draft<Option<Seq<GroupView>>>,
}

impl DeepView for Config {
    type V = ConfigView;

    open spec fn deep_view(&self) -> ConfigView {
        ConfigView {
            settings: self.settings.deep_view(),
            projects: self.projects.deep_view(),
            groups: self.groups.deep_view(),
        }
    }
}

impl View for Config {
    type V = ConfigView;

    open spec fn view(&self) -> ConfigView {
        self.deep_view()
    }
}

/// A copy of `projects`.
pub fn clone_projects(projects: &Vec<Project>) -> (copy: Vec<Project>)
    ensures
        copy@ == projects@,
{
    let copy = projects.clone();
    assert(copy@ =~= projects@);
    copy
}

/// A copy of `groups`.
pub fn clone_groups(groups: &Vec<Group>) -> (copy: Vec<Group>)
    ensures
        copy@ == groups@,
{
    let copy = groups.clone();
    assert(copy@ =~= groups@);
    copy
}

} // verus!
