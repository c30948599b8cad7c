//! Configuration exchange: what an export holds, and how an import is
//! carried into the live configuration.

use crate::config::{
    clone_groups, clone_projects, Config, ConfigView, Draft, Group, GroupView, Project,
    ProjectView,
};
use crate::settings::{ISettings, SettingsView};
use crate::version::{sync_requests, syncs_of, SyncRequest, SyncRequestView};
use std::path::PathBuf;
use vstd::prelude::*;

verus! {

/// What to export.
#[derive(Debug, PartialEq, Eq)]
pub struct ConfigurationExport {
    /// Theme colour, exported as it is.
    pub color: Option<String>,
    /// Whether to export the settings, and `mirrors` with them.
    pub setting: Option<bool>,
    /// Mirrors, exported with the settings only.
    pub mirrors: Option<String>,
    /// Whether to export the projects, and the groups with them.
    pub projects: Option<bool>,
}

/// The mathematical content of a [`ConfigurationExport`].
pub ghost struct ConfigurationExportView {
    pub color: Option<Seq<char>>,
    pub setting: Option<bool>,
    pub mirrors: Option<Seq<char>>,
    pub projects: Option<bool>,
}

impl DeepView for ConfigurationExport {
    type V = ConfigurationExportView;

    open spec fn deep_view(&self) -> ConfigurationExportView {
        ConfigurationExportView {
            color: self.color.deep_view(),
            setting: self.setting,
            mirrors: self.mirrors.deep_view(),
            projects: self.projects,
        }
    }
}

impl View for ConfigurationExport {
    type V = ConfigurationExportView;

    open spec fn view(&self) -> ConfigurationExportView {
        self.deep_view()
    }
}

/// A snapshot of configuration, as it is written to and read from an
/// exchange file.
#[derive(Debug, PartialEq, Eq)]
pub struct ConfigurationData {
    pub color: Option<String>,
    pub setting: Option<ISettings>,
    pub mirrors: Option<String>,
    pub projects: Option<Vec<Project>>,
    pub groups: Option<Vec<Group>>,
}

/// The mathematical content of a [`ConfigurationData`].
pub ghost struct ConfigurationDataView {
    pub color: Option<Seq<char>>,
    pub setting: Option<SettingsView>,
    pub mirrors: Option<Seq<char>>,
    pub projects: Option<Seq<ProjectView>>,
    pub groups: Option<Seq<GroupView>>,
}

impl DeepView for ConfigurationData {
    type V = ConfigurationDataView;

    open spec fn deep_view(&self) -> ConfigurationDataView {
        ConfigurationDataView {
            color: self.color.deep_view(),
            setting: self.setting.deep_view(),
            mirrors: self.mirrors.deep_view(),
            projects: self.projects.deep_view(),
            groups: self.groups.deep_view(),
        }
    }
}

impl View for ConfigurationData {
    type V = ConfigurationDataView;

    open spec fn view(&self) -> ConfigurationDataView {
        self.deep_view()
    }
}

/// What an import hands back to its caller: the part of the snapshot that
/// is not carried into the live configuration.
#[derive(Debug, PartialEq, Eq)]
pub struct ConfigurationImport {
    pub color: Option<String>,
    pub setting: Option<ISettings>,
    pub mirrors: Option<String>,
}

/// The mathematical content of a [`ConfigurationImport`].
pub ghost struct ConfigurationImportView {
    pub color: Option<Seq<char>>,
    pub setting: Option<SettingsView>,
    pub mirrors: Option<Seq<char>>,
}

impl DeepView for ConfigurationImport {
    type V = ConfigurationImportView;

    open spec fn deep_view(&self) -> ConfigurationImportView {
        ConfigurationImportView {
            color: self.color.deep_view(),
            setting: self.setting.deep_view(),
            mirrors: self.mirrors.deep_view(),
        }
    }
}

impl View for ConfigurationImport {
    type V = ConfigurationImportView;

    open spec fn view(&self) -> ConfigurationImportView {
        self.deep_view()
    }
}

/// The snapshot that `request` asks for of `live`: the colour as given;
/// the latest settings, and the mirrors as given, where settings are asked
/// for; the latest projects and groups, both or neither, where projects
/// are asked for.
pub open spec fn exported(request: ConfigurationExportView, live: ConfigView) -> ConfigurationDataView {
    let with_settings = request.setting == Some(true);
    let with_projects = request.projects == Some(true);
    ConfigurationDataView {
        color: request.color,
        setting: if with_settings {
            Some(live.settings.latest_value())
        } else {
            None
        },
        mirrors: if with_settings {
            request.mirrors
        } else {
            None
        },
        projects: if with_projects {
            live.projects.latest_value()
        } else {
            None
        },
        groups: if with_projects {
            live.groups.latest_value()
        } else {
            None
        },
    }
}

/// Takes the snapshot that `configuration` asks for of `live`. Writing it
/// to the exchange file is left to the caller.
pub fn configuration_export(configuration: ConfigurationExport, live: &Config) -> (output:
    ConfigurationData)
    ensures
        output@ == exported(configuration@, live@),
{
    let with_settings = match configuration.setting {
        Some(wanted) => wanted,
        None => false,
    };
    let with_projects = match configuration.projects {
        Some(wanted) => wanted,
        None => false,
    };
    let mut output = ConfigurationData {
        color: configuration.color,
        setting: None,
        mirrors: None,
        projects: None,
        groups: None,
    };
    if with_settings {
        output.setting = Some(live.settings.latest().clone());
        output.mirrors = configuration.mirrors;
    }
    if with_projects {
        output.projects = match live.projects.latest() {
            Some(list) => Some(clone_projects(list)),
            None => None,
        };
        output.groups = match live.groups.latest() {
            Some(list) => Some(clone_groups(list)),
            None => None,
        };
    }
    output
}

/// Name of the filter that the file picker of an import shows.
pub const IMPORT_FILTER_NAME: &'static str = "Select Json";

/// The one file extension that the file picker of an import offers.
pub const IMPORT_FILTER_EXTENSION: &'static str = "json";

/// Name of the event that tells the window that projects or groups were
/// committed.
pub const PROJECTS_UPDATE_EVENT: &'static str = "call-projects-update";

/// The file that the picker handed back.
#[derive(Debug, PartialEq, Eq)]
pub enum FilePath {
    /// A file that is named by a URL.
    Url(String),
    /// A file on this machine.
    Path(PathBuf),
}

/// The mathematical content of a [`FilePath`].
pub ghost enum FilePathView {
    Url(Seq<char>),
    Path(PathBuf),
}

impl DeepView for FilePath {
    type V = FilePathView;

    open spec fn deep_view(&self) -> FilePathView {
        match *self {
            FilePath::Url(url) => FilePathView::Url(url@),
            FilePath::Path(path) => FilePathView::Path(path),
        }
    }
}

/// Why an import ended without its result.
#[derive(Debug, Clone, Copy, PartialEq, Eq, Structural)]
pub enum ImportError {
    /// The chosen file is named by a URL, not by a path on this machine.
    ImportSourceInvalid,
    /// The chosen file could not be read as a snapshot.
    Unreadable,
    /// The version of a project could not be synced.
    SyncFailure,
    /// A list was committed and could not be written to its file.
    NotSaved,
}

impl ImportError {
    /// The message shown for this error.
    pub fn message(&self) -> (text: String)
        ensures
            text@ == match *self {
                ImportError::ImportSourceInvalid => "Unsupported URL scheme"@,
                ImportError::Unreadable => "Failed to read the configuration file"@,
                ImportError::SyncFailure => "Failed to sync the project version"@,
                ImportError::NotSaved => "Failed to save the imported configuration"@,
            },
    {
        match self {
            ImportError::ImportSourceInvalid => "Unsupported URL scheme".to_owned(),
            ImportError::Unreadable => "Failed to read the configuration file".to_owned(),
            ImportError::SyncFailure => "Failed to sync the project version".to_owned(),
            ImportError::NotSaved => "Failed to save the imported configuration".to_owned(),
        }
    }
}

/// Where an import stands.
#[derive(Debug, PartialEq, Eq)]
pub enum ImportRun {
    /// The file picker is open.
    Picking { sync: bool },
    /// The chosen file is being read.
    Reading { sync: bool },
    /// Of the syncs that the projects of `data` owe, `requests`, the one at
    /// index `cursor` is under way; those before it are done.
    Syncing { data: ConfigurationData, requests: Vec<SyncRequest>, cursor: usize },
    /// The projects are committed and are being written to their file.
    SavingProjects { data: ConfigurationData },
    /// The groups are committed and are being written to their file.
    SavingGroups { data: ConfigurationData },
    /// The import is over.
    Done,
}

/// The mathematical content of an [`ImportRun`].
pub ghost enum ImportRunView {
    Picking { sync: bool },
    Reading { sync: bool },
    Syncing { data: ConfigurationDataView, requests: Seq<SyncRequestView>, cursor: int },
    SavingProjects { data: ConfigurationDataView },
    SavingGroups { data: ConfigurationDataView },
    Done,
}

impl DeepView for ImportRun {
    type V = ImportRunView;

    open spec fn deep_view(&self) -> ImportRunView {
        match *self {
            ImportRun::Picking { sync } => ImportRunView::Picking { sync },
            ImportRun::Reading { sync } => ImportRunView::Reading { sync },
            ImportRun::Syncing { data, requests, cursor } => ImportRunView::Syncing {
                data: data@,
                requests: requests.deep_view(),
                cursor: cursor as int,
            },
            ImportRun::SavingProjects { data } => ImportRunView::SavingProjects { data: data@ },
            ImportRun::SavingGroups { data } => ImportRunView::SavingGroups { data: data@ },
            ImportRun::Done => ImportRunView::Done,
        }
    }
}

impl View for ImportRun {
    type V = ImportRunView;

    open spec fn view(&self) -> ImportRunView {
        self.deep_view()
    }
}

/// What came of the action that an import asked for last.
#[derive(Debug, PartialEq, Eq)]
pub enum ImportEvent {
    /// The file picker was closed: with a file, or with none where the
    /// user cancelled.
    Picked(Option<FilePath>),
    /// The chosen file was read, and held this snapshot.
    Loaded(ConfigurationData),
    /// The sync, or the writing of a list, succeeded.
    Completed,
    /// The reading, the sync, or the writing of a list, failed.
    Failed,
}

/// The mathematical content of an [`ImportEvent`].
pub ghost enum ImportEventView {
    Picked(Option<FilePathView>),
    Loaded(ConfigurationDataView),
    Completed,
    Failed,
}

impl DeepView for ImportEvent {
    type V = ImportEventView;

    open spec fn deep_view(&self) -> ImportEventView {
        match *self {
            ImportEvent::Picked(file) => ImportEventView::Picked(file.deep_view()),
            ImportEvent::Loaded(data) => ImportEventView::Loaded(data@),
            ImportEvent::Completed => ImportEventView::Completed,
            ImportEvent::Failed => ImportEventView::Failed,
        }
    }
}

impl View for ImportEvent {
    type V = ImportEventView;

    open spec fn view(&self) -> ImportEventView {
        self.deep_view()
    }
}

/// What an import asks its caller to do next.
#[derive(Debug, PartialEq, Eq)]
pub enum ImportAction {
    /// Let the user pick a file among those with the extension `extension`,
    /// in a picker that shows them under the name `filter`.
    Pick { filter: String, extension: String },
    /// Read the snapshot in the file at `path`.
    Read { path: PathBuf },
    /// Sync the version of one project.
    Sync { request: SyncRequest },
    /// Write the committed projects to their file.
    SaveProjects,
    /// Write the committed groups to their file.
    SaveGroups,
    /// Hand `result` back. Where `event` is given, projects or groups were
    /// committed: first refresh the system tray, and send the event named
    /// `event` to the window if there is one.
    Finish { result: Option<ConfigurationImport>, event: Option<String> },
    /// Hand `error` back.
    Fail { error: ImportError },
    /// Nothing: the event was not awaited, and nothing has changed.
    Ignored,
}

/// The mathematical content of an [`ImportAction`].
pub ghost enum ImportActionView {
    Pick { filter: Seq<char>, extension: Seq<char> },
    Read { path: PathBuf },
    Sync { request: SyncRequestView },
    SaveProjects,
    SaveGroups,
    Finish { result: Option<ConfigurationImportView>, event: Option<Seq<char>> },
    Fail { error: ImportError },
    Ignored,
}

impl DeepView for ImportAction {
    type V = ImportActionView;

    open spec fn deep_view(&self) -> ImportActionView {
        match *self {
            ImportAction::Pick { filter, extension } => ImportActionView::Pick {
                filter: filter@,
                extension: extension@,
            },
            ImportAction::Read { path } => ImportActionView::Read { path },
            ImportAction::Sync { request } => ImportActionView::Sync { request: request@ },
            ImportAction::SaveProjects => ImportActionView::SaveProjects,
            ImportAction::SaveGroups => ImportActionView::SaveGroups,
            ImportAction::Finish { result, event } => ImportActionView::Finish {
                result: result.deep_view(),
                event: event.deep_view(),
            },
            ImportAction::Fail { error } => ImportActionView::Fail { error },
            ImportAction::Ignored => ImportActionView::Ignored,
        }
    }
}

impl View for ImportAction {
    type V = ImportActionView;

    open spec fn view(&self) -> ImportActionView {
        self.deep_view()
    }
}

/// One move of an import: where it stands then, what it asks for, and the
/// live configuration as it is then.
pub ghost struct ImportStep {
    pub run: ImportRunView,
    pub action: ImportActionView,
    pub live: ConfigView,
}

/// The list that a snapshot holds; a list that is missing counts as empty.
pub open spec fn list_of<T>(list: Option<Seq<T>>) -> Seq<T> {
    match list {
        Some(items) => items,
        None => Seq::empty(),
    }
}

/// The part of `data` that an import hands back.
pub open spec fn result_of(data: ConfigurationDataView) -> ConfigurationImportView {
    ConfigurationImportView { color: data.color, setting: data.setting, mirrors: data.mirrors }
}

/// The move that ends an import of `data` in success. `notify` says
/// whether projects or groups were committed, and the window is to be
/// told.
pub open spec fn finish(data: ConfigurationDataView, notify: bool, live: ConfigView) -> ImportStep {
    ImportStep {
        run: ImportRunView::Done,
        action: ImportActionView::Finish {
            result: Some(result_of(data)),
            event: if notify {
                Some(PROJECTS_UPDATE_EVENT@)
            } else {
                None
            },
        },
        live,
    }
}

/// The move that takes up the groups of `data`: where there are any, they
/// are committed and are to be written; where there are none, the import
/// ends. `notify` says whether projects were committed before.
pub open spec fn commit_groups(data: ConfigurationDataView, notify: bool, live: ConfigView) -> ImportStep {
    let groups = list_of(data.groups);
    if groups.len() > 0 {
        ImportStep {
            run: ImportRunView::SavingGroups { data },
            action: ImportActionView::SaveGroups,
            live: ConfigView { groups: Draft { data: Some(groups), draft: None }, ..live },
        }
    } else {
        finish(data, notify, live)
    }
}

/// The move that takes up the projects of `data`: where there are any,
/// they are committed and are to be written; where there are none, the
/// groups are taken up.
pub open spec fn commit_projects(data: ConfigurationDataView, live: ConfigView) -> ImportStep {
    let projects = list_of(data.projects);
    if projects.len() > 0 {
        ImportStep {
            run: ImportRunView::SavingProjects { data },
            action: ImportActionView::SaveProjects,
            live: ConfigView { projects: Draft { data: Some(projects), draft: None }, ..live },
        }
    } else {
        commit_groups(data, false, live)
    }
}

/// The syncs that the projects of `data` owe, each resolved against the
/// groups of `data`, in the order of the projects.
pub open spec fn syncs_owed(data: ConfigurationDataView) -> Seq<SyncRequestView> {
    syncs_of(list_of(data.projects), list_of(data.groups))
}

/// The move that takes up the syncs `requests` from index `from` on: the
/// sync at that index is asked for; where there is none, the projects of
/// `data` are taken up.
pub open spec fn sync_or_commit(
    data: ConfigurationDataView,
    requests: Seq<SyncRequestView>,
    from: int,
    live: ConfigView,
) -> ImportStep {
    if 0 <= from < requests.len() {
        ImportStep {
            run: ImportRunView::Syncing { data, requests, cursor: from },
            action: ImportActionView::Sync { request: requests[from] },
            live,
        }
    } else {
        commit_projects(data, live)
    }
}

/// The move that an import makes when it stands at `run`, `event` comes
/// in, and the live configuration is `live`.
pub open spec fn next(run: ImportRunView, event: ImportEventView, live: ConfigView) -> ImportStep {
    let done = ImportRunView::Done;
    match (run, event) {
        (ImportRunView::Picking { sync }, ImportEventView::Picked(None)) => ImportStep {
            run: done,
            action: ImportActionView::Finish { result: None, event: None },
            live,
        },
        (
            ImportRunView::Picking { sync },
            ImportEventView::Picked(Some(FilePathView::Url(_))),
        ) => ImportStep {
            run: done,
            action: ImportActionView::Fail { error: ImportError::ImportSourceInvalid },
            live,
        },
        (
            ImportRunView::Picking { sync },
            ImportEventView::Picked(Some(FilePathView::Path(path))),
        ) => ImportStep {
            run: ImportRunView::Reading { sync },
            action: ImportActionView::Read { path },
            live,
        },
        (ImportRunView::Reading { sync }, ImportEventView::Loaded(data)) => if sync {
            sync_or_commit(data, syncs_owed(data), 0, live)
        } else {
            commit_projects(data, live)
        },
        (ImportRunView::Reading { sync }, ImportEventView::Failed) => ImportStep {
            run: done,
            action: ImportActionView::Fail { error: ImportError::Unreadable },
            live,
        },
        (
            ImportRunView::Syncing { data, requests, cursor },
            ImportEventView::Completed,
        ) => sync_or_commit(data, requests, cursor + 1, live),
        (ImportRunView::Syncing { data, requests, cursor }, ImportEventView::Failed) => ImportStep {
            run: done,
            action: ImportActionView::Fail { error: ImportError::SyncFailure },
            live,
        },
        (ImportRunView::SavingProjects { data }, ImportEventView::Completed) => commit_groups(
            data,
            true,
            live,
        ),
        (ImportRunView::SavingProjects { data }, ImportEventView::Failed) => ImportStep {
            run: done,
            action: ImportActionView::Fail { error: ImportError::NotSaved },
            live,
        },
        (ImportRunView::SavingGroups { data }, ImportEventView::Completed) => finish(
            data,
            true,
            live,
        ),
        (ImportRunView::SavingGroups { data }, ImportEventView::Failed) => ImportStep {
            run: done,
            action: ImportActionView::Fail { error: ImportError::NotSaved },
            live,
        },
        _ => ImportStep { run, action: ImportActionView::Ignored, live },
    }
}

/// Whether `step` is the move `expected` on a live configuration that was
/// `before` and is `after`: it leads where `expected` leads and asks what
/// it asks, the live configuration holds what it holds, and no part of the
/// live configuration has changed but a list that is to be written.
pub open spec fn makes_move(
    step: (ImportRun, ImportAction),
    expected: ImportStep,
    before: Config,
    after: Config,
) -> bool {
    &&& step.0@ == expected.run
    &&& step.1@ == expected.action
    &&& after@ == expected.live
    &&& after.settings == before.settings
    &&& !(step.1 is SaveProjects) ==> after.projects == before.projects
    &&& !(step.1 is SaveGroups) ==> after.groups == before.groups
}

/// Ends an import of `data` in success.
fn finish_import(data: ConfigurationData, notify: bool, live: &mut Config) -> (step: (
    ImportRun,
    ImportAction,
))
    ensures
        makes_move(step, finish(data@, notify, old(live)@), *old(live), *final(live)),
{
    let result = ConfigurationImport {
        color: data.color,
        setting: data.setting,
        mirrors: data.mirrors,
    };
    let event = if notify {
        Some(PROJECTS_UPDATE_EVENT.to_owned())
    } else {
        None
    };
    (ImportRun::Done, ImportAction::Finish { result: Some(result), event })
}

/// Takes up the groups of `data`.
fn commit_groups_of(data: ConfigurationData, notify: bool, live: &mut Config) -> (step: (
    ImportRun,
    ImportAction,
))
    ensures
        makes_move(step, commit_groups(data@, notify, old(live)@), *old(live), *final(live)),
{
    let staged = match &data.groups {
        Some(list) => if list.len() > 0 {
            Some(clone_groups(list))
        } else {
            None
        },
        None => None,
    };
    match staged {
        Some(list) => {
            live.groups.stage(Some(list));
            live.groups.apply();
            (ImportRun::SavingGroups { data }, ImportAction::SaveGroups)
        },
        None => finish_import(data, notify, live),
    }
}

/// Takes up the projects of `data`.
fn commit_projects_of(data: ConfigurationData, live: &mut Config) -> (step: (
    ImportRun,
    ImportAction,
))
    ensures
        makes_move(step, commit_projects(data@, old(live)@), *old(live), *final(live)),
{
    let staged = match &data.projects {
        Some(list) => if list.len() > 0 {
            Some(clone_projects(list))
        } else {
            None
        },
        None => None,
    };
    match staged {
        Some(list) => {
            live.projects.stage(Some(list));
            live.projects.apply();
            (ImportRun::SavingProjects { data }, ImportAction::SaveProjects)
        },
        None => commit_groups_of(data, false, live),
    }
}

/// The syncs that the projects of `data` owe.
fn syncs_owed_by(data: &ConfigurationData) -> (requests: Vec<SyncRequest>)
    ensures
        requests.deep_view() == syncs_owed(data@),
{
    let none: Vec<Group> = Vec::new();
    assert(none.deep_view() =~= Seq::<GroupView>::empty());
    match &data.projects {
        Some(projects) => match &data.groups {
            Some(groups) => sync_requests(projects, groups),
            None => sync_requests(projects, &none),
        },
        None => {
            let requests: Vec<SyncRequest> = Vec::new();
            assert(requests.deep_view() =~= Seq::<SyncRequestView>::empty());
            requests
        },
    }
}

/// Takes up the syncs `requests` from index `from` on.
fn sync_or_commit_of(
    data: ConfigurationData,
    requests: Vec<SyncRequest>,
    from: usize,
    live: &mut Config,
) -> (step: (ImportRun, ImportAction))
    ensures
        makes_move(
            step,
            sync_or_commit(data@, requests.deep_view(), from as int, old(live)@),
            *old(live),
            *final(live),
        ),
{
    if from < requests.len() {
        let request = requests[from].clone();
        assert(requests.deep_view()[from as int] == request.deep_view());
        (ImportRun::Syncing { data, requests, cursor: from }, ImportAction::Sync { request })
    } else {
        assert(requests.deep_view().len() == requests.len());
        commit_projects_of(data, live)
    }
}

/// What an import asks for first: a file, picked among the JSON files.
pub open spec fn pick_json() -> ImportActionView {
    ImportActionView::Pick { filter: IMPORT_FILTER_NAME@, extension: IMPORT_FILTER_EXTENSION@ }
}

/// Begins an import; `sync` says whether the version of each imported
/// project is to be synced. The first thing asked for is to let the user
/// pick a file.
pub fn configuration_import(sync: bool) -> (begin: (ImportRun, ImportAction))
    ensures
        begin.0 == (ImportRun::Picking { sync }),
        begin.1@ == pick_json(),
{
    (
        ImportRun::Picking { sync },
        ImportAction::Pick {
            filter: IMPORT_FILTER_NAME.to_owned(),
            extension: IMPORT_FILTER_EXTENSION.to_owned(),
        },
    )
}

impl ImportRun {
    /// Makes the move that `event` calls for: says where the import
    /// stands then and what to do next, and commits to `live` what is to
    /// be committed.
    pub fn step(self, event: ImportEvent, live: &mut Config) -> (step: (ImportRun, ImportAction))
        ensures
            makes_move(step, next(self@, event@, old(live)@), *old(live), *final(live)),
    {
        match (self, event) {
            (ImportRun::Picking { sync }, ImportEvent::Picked(None)) => (
                ImportRun::Done,
                ImportAction::Finish { result: None, event: None },
            ),
            (ImportRun::Picking { sync }, ImportEvent::Picked(Some(FilePath::Url(_)))) => (
                ImportRun::Done,
                ImportAction::Fail { error: ImportError::ImportSourceInvalid },
            ),
            (ImportRun::Picking { sync }, ImportEvent::Picked(Some(FilePath::Path(path)))) => (
                ImportRun::Reading { sync },
                ImportAction::Read { path },
            ),
            (ImportRun::Reading { sync }, ImportEvent::Loaded(data)) => if sync {
                let requests = syncs_owed_by(&data);
                sync_or_commit_of(data, requests, 0, live)
            } else {
                commit_projects_of(data, live)
            },
            (ImportRun::Reading { sync }, ImportEvent::Failed) => (
                ImportRun::Done,
                ImportAction::Fail { error: ImportError::Unreadable },
            ),
            (ImportRun::Syncing { data, requests, cursor }, ImportEvent::Completed) => {
                if cursor < usize::MAX {
                    sync_or_commit_of(data, requests, cursor + 1, live)
                } else {
                    assert(requests.deep_view().len() == requests.len());
                    commit_projects_of(data, live)
                }
            },
            (ImportRun::Syncing { data, requests, cursor }, ImportEvent::Failed) => (
                ImportRun::Done,
                ImportAction::Fail { error: ImportError::SyncFailure },
            ),
            (ImportRun::SavingProjects { data }, ImportEvent::Completed) => commit_groups_of(
                data,
                true,
                live,
            ),
            (ImportRun::SavingProjects { data }, ImportEvent::Failed) => (
                ImportRun::Done,
                ImportAction::Fail { error: ImportError::NotSaved },
            ),
            (ImportRun::SavingGroups { data }, ImportEvent::Completed) => finish_import(
                data,
                true,
                live,
            ),
            (ImportRun::SavingGroups { data }, ImportEvent::Failed) => (
                ImportRun::Done,
                ImportAction::Fail { error: ImportError::NotSaved },
            ),
            (run, _) => (run, ImportAction::Ignored),
        }
    }
}

/// Where an import stands, what it asked for last, and the live
/// configuration, after `events` have come in one by one on an import that
/// stood at `run` with the live configuration `live`.
pub open spec fn after_events(
    run: ImportRunView,
    events: Seq<ImportEventView>,
    live: ConfigView,
) -> ImportStep
    decreases events.len(),
{
    if events.len() == 0 {
        ImportStep { run, action: ImportActionView::Ignored, live }
    } else {
        let before = after_events(run, events.drop_last(), live);
        next(before.run, events.last(), before.live)
    }
}

/// The live configuration after a whole import of `data` into `live`:
/// each list of `data` that is not empty stands committed in place of the
/// list of `live`, with nothing staged; the rest is as it was.
pub open spec fn imported(data: ConfigurationDataView, live: ConfigView) -> ConfigView {
    let projects = list_of(data.projects);
    let groups = list_of(data.groups);
    ConfigView {
        settings: live.settings,
        projects: if projects.len() > 0 {
            Draft { data: Some(projects), draft: None }
        } else {
            live.projects
        },
        groups: if groups.len() > 0 {
            Draft { data: Some(groups), draft: None }
        } else {
            live.groups
        },
    }
}

/// Whether an import that stands at `run` has committed nothing yet.
pub open spec fn before_commit(run: ImportRunView) -> bool {
    run is Picking || run is Reading || run is Syncing
}

/// Until the syncs are through, an import leaves the live configuration
/// alone, whatever events come in.
proof fn lemma_untouched_before_commit(
    sync: bool,
    events: Seq<ImportEventView>,
    live: ConfigView,
)
    ensures
        ({
            let end = after_events(ImportRunView::Picking { sync }, events, live);
            &&& before_commit(end.run) ==> end.live == live
            &&& end.action is Fail && end.action->error != ImportError::NotSaved ==> end.live
                == live
            &&& end.action is Finish && end.action->result is None ==> end.live == live
        }),
    decreases events.len(),
{
    if events.len() > 0 {
        lemma_untouched_before_commit(sync, events.drop_last(), live);
    }
}

/// Where the sync of a project fails, the import ends with that error and
/// has left the live configuration as it found it: nothing of the snapshot
/// is committed, whatever was synced before.
pub proof fn lemma_failed_sync_commits_nothing(
    sync: bool,
    events: Seq<ImportEventView>,
    live: ConfigView,
)
    requires
        after_events(ImportRunView::Picking { sync }, events, live).action == (
        ImportActionView::Fail { error: ImportError::SyncFailure }),
    ensures
        after_events(ImportRunView::Picking { sync }, events, live).live == live,
        after_events(ImportRunView::Picking { sync }, events, live).run is Done,
{
    lemma_untouched_before_commit(sync, events, live);
}

/// Where the user cancels the file picker, the import ends at once with
/// no result and no error, and leaves the live configuration as it is.
pub proof fn lemma_cancel_commits_nothing(sync: bool, live: ConfigView)
    ensures
        next(ImportRunView::Picking { sync }, ImportEventView::Picked(None), live) == (ImportStep {
            run: ImportRunView::Done,
            action: ImportActionView::Finish { result: None, event: None },
            live,
        }),
{
}

/// An import that hands back no result has left the live configuration as
/// it found it, whatever events came in.
pub proof fn lemma_no_result_commits_nothing(
    sync: bool,
    events: Seq<ImportEventView>,
    live: ConfigView,
)
    requires
        after_events(ImportRunView::Picking { sync }, events, live).action is Finish,
        after_events(ImportRunView::Picking { sync }, events, live).action->result is None,
    ensures
        after_events(ImportRunView::Picking { sync }, events, live).live == live,
{
    lemma_untouched_before_commit(sync, events, live);
}

/// An import that is over takes no further event.
pub proof fn lemma_done_is_final(event: ImportEventView, live: ConfigView)
    ensures
        next(ImportRunView::Done, event, live) == (ImportStep {
            run: ImportRunView::Done,
            action: ImportActionView::Ignored,
            live,
        }),
{
}

/// The events of an import without sync in which every action succeeds:
/// the snapshot, then the writing of up to two lists.
pub open spec fn plain_import(data: ConfigurationDataView) -> Seq<ImportEventView> {
    seq![
        ImportEventView::Loaded(data),
        ImportEventView::Completed,
        ImportEventView::Completed,
    ]
}

/// An import without sync in which every action succeeds is over after
/// the snapshot and the writing of its lists, and has made
/// [`imported`] of the live configuration.
pub proof fn lemma_plain_import(data: ConfigurationDataView, live: ConfigView)
    ensures
        after_events(ImportRunView::Reading { sync: false }, plain_import(data), live).run is Done,
        after_events(ImportRunView::Reading { sync: false }, plain_import(data), live).live
            == imported(data, live),
{
    reveal_with_fuel(after_events, 4);
    let start = ImportRunView::Reading { sync: false };
    let events = plain_import(data);
    let two = events.drop_last();
    let one = two.drop_last();
    assert(one.drop_last() =~= Seq::<ImportEventView>::empty());
    assert(one.last() == ImportEventView::Loaded(data));
    assert(two.last() == ImportEventView::Completed);
    assert(events.last() == ImportEventView::Completed);
}

/// Export and import are a round trip: where the projects of a live
/// configuration are exported, and the snapshot is imported into that
/// configuration without sync, its latest projects and groups are exactly
/// what they were, and so are its settings.
pub proof fn lemma_export_import_round_trip(request: ConfigurationExportView, live: ConfigView)
    requires
        request.projects == Some(true),
    ensures
        ({
            let data = exported(request, live);
            let end = after_events(ImportRunView::Reading { sync: false }, plain_import(data), live);
            &&& end.run is Done
            &&& end.live.projects.latest_value() == live.projects.latest_value()
            &&& end.live.groups.latest_value() == live.groups.latest_value()
            &&& end.live.settings == live.settings
        }),
{
    lemma_plain_import(exported(request, live), live);
}

/// A snapshot with projects and groups, imported without sync into any
/// live configuration, leaves exactly its projects and its groups
/// committed there.
pub proof fn lemma_import_replaces_lists(data: ConfigurationDataView, live: ConfigView)
    requires
        list_of(data.projects).len() > 0,
        list_of(data.groups).len() > 0,
    ensures
        ({
            let end = after_events(ImportRunView::Reading { sync: false }, plain_import(data), live);
            &&& end.live.projects == (Draft { data: data.projects, draft: None })
            &&& end.live.groups == (Draft { data: data.groups, draft: None })
        }),
{
    lemma_plain_import(data, live);
}

/// The events of an import up to the moment when `done` of its syncs have
/// succeeded: the snapshot, then one success for each.
pub open spec fn synced_events(data: ConfigurationDataView, done: nat) -> Seq<ImportEventView>
    decreases done,
{
    if done == 0 {
        seq![ImportEventView::Loaded(data)]
    } else {
        synced_events(data, (done - 1) as nat).push(ImportEventView::Completed)
    }
}

/// An import with sync asks for the syncs that the imported projects owe,
/// one by one and in their order, and commits nothing meanwhile: when the
/// first `done` of them have succeeded and more are owed, it asks for the
/// next and the live configuration is as it was found; when all have
/// succeeded, it takes up the projects.
pub proof fn lemma_syncs_come_first(data: ConfigurationDataView, done: nat, live: ConfigView)
    requires
        done <= syncs_owed(data).len(),
    ensures
        after_events(ImportRunView::Reading { sync: true }, synced_events(data, done), live)
            == sync_or_commit(data, syncs_owed(data), done as int, live),
    decreases done,
{
    let start = ImportRunView::Reading { sync: true };
    let events = synced_events(data, done);
    if done == 0 {
        assert(events.drop_last() =~= Seq::<ImportEventView>::empty());
        assert(after_events(start, events.drop_last(), live).run == start);
    } else {
        lemma_syncs_come_first(data, (done - 1) as nat, live);
        assert(events.drop_last() =~= synced_events(data, (done - 1) as nat));
    }
}

/// An import with sync in which every action succeeds is over after its
/// syncs and the writing of its lists, and has made [`imported`] of the
/// live configuration.
pub proof fn lemma_synced_import(data: ConfigurationDataView, live: ConfigView)
    ensures
        ({
            let events = synced_events(data, syncs_owed(data).len()).push(
                ImportEventView::Completed,
            ).push(ImportEventView::Completed);
            let end = after_events(ImportRunView::Reading { sync: true }, events, live);
            &&& end.run is Done
            &&& end.live == imported(data, live)
        }),
{
    let start = ImportRunView::Reading { sync: true };
    let synced = synced_events(data, syncs_owed(data).len());
    let done = ImportEventView::Completed;
    lemma_syncs_come_first(data, syncs_owed(data).len(), live);
    assert(synced.push(done).drop_last() =~= synced);
    assert(synced.push(done).push(done).drop_last() =~= synced.push(done));
    reveal_with_fuel(after_events, 3);
}

} // verus!
