//! Locations of the persisted state, all below one application home
//! directory.

use std::path::PathBuf;
use vstd::prelude::*;

verus! {

/// `std::path::PathBuf`, carried through as an opaque value.
#[verifier::external_type_specification]
#[verifier::external_body]
pub struct ExPathBuf(PathBuf);

/// `dirs::home_dir` reports the home directory of the current user, or
/// `None` where the platform knows of none. The answer depends on the
/// environment, so nothing is claimed of it.
pub assume_specification[ dirs::home_dir ]() -> (home: Option<PathBuf>);

/// A location below a directory that the platform reported: the directory as
/// it was handed over, and the names to descend by, outermost first.
#[derive(Debug, PartialEq, Eq)]
pub struct AppPath {
    pub root: PathBuf,
    pub parts: Vec<String>,
}

/// The mathematical content of an [`AppPath`].
pub ghost struct AppPathView {
    pub root: PathBuf,
    pub parts: Seq<Seq<char>>,
}

impl AppPathView {
    /// The location one level further down, under `name`.
    pub open spec fn join(self, name: Seq<char>) -> AppPathView {
        AppPathView { root: self.root, parts: self.parts.push(name) }
    }
}

impl View for AppPath {
    type V = AppPathView;

    open spec fn view(&self) -> AppPathView {
        AppPathView { root: self.root, parts: self.parts.deep_view() }
    }
}

/// Why a location could not be computed.
#[derive(Debug, Clone, Copy, PartialEq, Eq, Structural)]
pub enum DirsError {
    /// The platform reports no home directory.
    EnvironmentUnavailable,
    /// The application's resource directory is unknown.
    ResourcesUnavailable,
    /// The application's log directory is unknown.
    LogsUnavailable,
}

impl AppPath {
    /// The location `root` itself.
    pub fn new(root: PathBuf) -> (path: AppPath)
        ensures
            path@ == (AppPathView { root, parts: Seq::empty() }),
    {
        let path = AppPath { root, parts: Vec::new() };
        assert(path.parts.deep_view() =~= Seq::empty());
        path
    }

    /// The location one level further down, under `name`.
    pub fn join(self, name: &str) -> (path: AppPath)
        ensures
            path@ == self@.join(name@),
    {
        let ghost before = self.parts.deep_view();
        let mut parts = self.parts;
        parts.push(name.to_owned());
        assert(parts.deep_view() =~= before.push(name@));
        AppPath { root: self.root, parts }
    }
}

/// Name of the application home directory below the user's home directory.
pub const APP_ID: &'static str = ".nvmd";

/// The application home directory below `home`.
pub open spec fn app_home(home: PathBuf) -> AppPathView {
    AppPathView { root: home, parts: seq![APP_ID@] }
}

/// The application home directory for the home directory that the platform
/// reported, `home`; an error where it reported none.
pub fn nvmd_home_in(home: Option<PathBuf>) -> (r: Result<AppPath, DirsError>)
    ensures
        match home {
            Some(dir) => r matches Ok(path) && path@ == app_home(dir),
            None => r == Err::<AppPath, DirsError>(DirsError::EnvironmentUnavailable),
        },
{
    match home {
        Some(dir) => Ok(AppPath::new(dir).join(APP_ID)),
        None => Err(DirsError::EnvironmentUnavailable),
    }
}

/// What a lookup below the application home directory owes its caller: on
/// success the entry `name` of the application home directory, below
/// whatever home directory the platform reported, and no error but that of
/// a platform without one.
pub open spec fn is_home_entry(r: Result<AppPath, DirsError>, name: Seq<char>) -> bool {
    match r {
        Ok(path) => path@ == app_home(path.root).join(name),
        Err(e) => e == DirsError::EnvironmentUnavailable,
    }
}

/// The entry `name` of the application home directory below `home`; an error
/// where the platform reported no home directory.
pub fn home_entry(home: Option<PathBuf>, name: &str) -> (r: Result<AppPath, DirsError>)
    ensures
        is_home_entry(r, name@),
        match home {
            Some(dir) => r matches Ok(path) && path.root == dir,
            None => r is Err,
        },
{
    match nvmd_home_in(home) {
        Ok(dir) => Ok(dir.join(name)),
        Err(e) => Err(e),
    }
}

/// The application home directory of the current user.
pub fn nvmd_home_dir() -> (r: Result<AppPath, DirsError>)
    ensures
        match r {
            Ok(path) => path@ == app_home(path.root),
            Err(e) => e == DirsError::EnvironmentUnavailable,
        },
{
    nvmd_home_in(dirs::home_dir())
}

/// The settings file.
pub fn settings_path() -> (r: Result<AppPath, DirsError>)
    ensures
        is_home_entry(r, "setting.json"@),
{
    home_entry(dirs::home_dir(), "setting.json")
}

/// The file that lists the projects.
pub fn projects_path() -> (r: Result<AppPath, DirsError>)
    ensures
        is_home_entry(r, "projects.json"@),
{
    home_entry(dirs::home_dir(), "projects.json")
}

/// The file that lists the groups.
pub fn groups_path() -> (r: Result<AppPath, DirsError>)
    ensures
        is_home_entry(r, "groups.json"@),
{
    home_entry(dirs::home_dir(), "groups.json")
}

/// The marker file that records the schema version.
pub fn migration_path() -> (r: Result<AppPath, DirsError>)
    ensures
        is_home_entry(r, "migration"@),
{
    home_entry(dirs::home_dir(), "migration")
}

/// The directory of the launcher shims.
pub fn bin_path() -> (r: Result<AppPath, DirsError>)
    ensures
        is_home_entry(r, "bin"@),
{
    home_entry(dirs::home_dir(), "bin")
}

/// The file that names the default version.
pub fn default_version_path() -> (r: Result<AppPath, DirsError>)
    ensures
        is_home_entry(r, "default"@),
{
    home_entry(dirs::home_dir(), "default")
}

/// The file that caches the list of versions.
pub fn version_list_path() -> (r: Result<AppPath, DirsError>)
    ensures
        is_home_entry(r, "versions.json"@),
{
    home_entry(dirs::home_dir(), "versions.json")
}

/// The directory into which versions are installed unless the settings name
/// another. Creating it where it is absent is left to the caller.
pub fn default_install_dir() -> (r: Result<AppPath, DirsError>)
    ensures
        is_home_entry(r, "versions"@),
{
    home_entry(dirs::home_dir(), "versions")
}

/// The directory of the bundled resources, given the resource directory that
/// the application framework reported.
pub fn app_resources_dir(resource_dir: Option<PathBuf>) -> (r: Result<AppPath, DirsError>)
    ensures
        match resource_dir {
            Some(dir) => r matches Ok(path) && path@ == (AppPathView {
                root: dir,
                parts: seq!["resources"@],
            }),
            None => r == Err::<AppPath, DirsError>(DirsError::ResourcesUnavailable),
        },
{
    match resource_dir {
        Some(dir) => Ok(AppPath::new(dir).join("resources")),
        None => Err(DirsError::ResourcesUnavailable),
    }
}

/// The directory of the log files, given the log directory that the
/// application framework reported.
pub fn app_logs_dir(log_dir: Option<PathBuf>) -> (r: Result<AppPath, DirsError>)
    ensures
        match log_dir {
            Some(dir) => r matches Ok(path) && path@ == (AppPathView {
                root: dir,
                parts: Seq::empty(),
            }),
            None => r == Err::<AppPath, DirsError>(DirsError::LogsUnavailable),
        },
{
    match log_dir {
        Some(dir) => Ok(AppPath::new(dir)),
        None => Err(DirsError::LogsUnavailable),
    }
}

impl DirsError {
    /// The message shown for this error.
    pub fn message(&self) -> (text: String)
        ensures
            text@ == match *self {
                DirsError::EnvironmentUnavailable => "failed to get app home dir"@,
                DirsError::ResourcesUnavailable => "Failed to get the resource directory"@,
                DirsError::LogsUnavailable => "Failed to get the logs directory"@,
            },
    {
        match self {
            DirsError::EnvironmentUnavailable => "failed to get app home dir".to_owned(),
            DirsError::ResourcesUnavailable => "Failed to get the resource directory".to_owned(),
            DirsError::LogsUnavailable => "Failed to get the logs directory".to_owned(),
        }
    }
}

} // verus!
