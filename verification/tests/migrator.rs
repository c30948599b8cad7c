use nvm_desktop::migrate::{FileOp, Platform};
use nvm_desktop::migrator::{
    init, MigrationAction, MigrationEvent, MigrationRun, MigrationState,
    MIGRATION_ERROR_DELAY_SECS, MIGRATION_ERROR_EVENT,
};
use std::collections::BTreeMap;

/// What stands under a name in the directory of a model disk.
#[derive(Debug, Clone, PartialEq, Eq)]
enum Entry {
    Copy(String),
    Link(String),
    Other(u32),
}

/// A model of the persisted state.
#[derive(Debug, Clone, PartialEq, Eq)]
struct Disk {
    marker: Option<String>,
    has_bin: bool,
    bin: BTreeMap<String, Entry>,
}

impl Disk {
    fn with_marker(marker: Option<&str>) -> Disk {
        Disk { marker: marker.map(|text| text.to_string()), has_bin: false, bin: BTreeMap::new() }
    }

    fn perform(&mut self, op: &FileOp) {
        match op {
            FileOp::CreateBinDir => self.has_bin = true,
            FileOp::Copy { source, target } => {
                assert!(self.has_bin);
                self.bin.insert(target.clone(), Entry::Copy(source.clone()));
            }
            FileOp::Link { target, name } => {
                assert!(self.has_bin);
                self.bin.insert(name.clone(), Entry::Link(target.clone()));
            }
            FileOp::SaveVersion { version } => self.marker = Some(version.to_string()),
        }
    }
}

/// Drives a migration run on `disk`. Where `fail_at` is `Some(n)`, the
/// operation number `n` of the run fails, counted from 0 over all batches.
fn migrate(platform: Platform, disk: &mut Disk, fail_at: Option<usize>) -> MigrationState {
    let mut performed = 0;
    let (mut run, mut action) = init(platform);
    loop {
        let event = match action {
            MigrationAction::ReadMarker => MigrationEvent::MarkerRead(disk.marker.clone()),
            MigrationAction::Run { ops } => {
                let mut event = MigrationEvent::Completed;
                for op in &ops {
                    if fail_at == Some(performed) {
                        event = MigrationEvent::Failed;
                        break;
                    }
                    disk.perform(op);
                    performed += 1;
                }
                event
            }
            MigrationAction::List => MigrationEvent::Listed(disk.bin.keys().cloned().collect()),
            MigrationAction::Rest => return run.state,
            MigrationAction::Report { event, delay_secs } => {
                assert_eq!(event, "app-migration-error");
                assert_eq!(delay_secs, 1);
                return run.state;
            }
            MigrationAction::Ignored => panic!("an awaited event was ignored"),
        };
        let step = run.step(event);
        run = step.0;
        action = step.1;
    }
}

fn copy_of(source: &str) -> Entry {
    Entry::Copy(source.to_string())
}

fn link_to(target: &str) -> Entry {
    Entry::Link(target.to_string())
}

#[test]
fn failure_notice() {
    assert_eq!(MIGRATION_ERROR_EVENT, "app-migration-error");
    assert_eq!(MIGRATION_ERROR_DELAY_SECS, 1);
}

fn begun(platform: Platform) -> MigrationRun {
    init(platform).0
}

fn report() -> MigrationAction {
    MigrationAction::Report { event: "app-migration-error".to_string(), delay_secs: 1 }
}

#[test]
fn run_begins_with_reading_the_marker() {
    for platform in [Platform::Unix, Platform::Windows] {
        assert_eq!(
            init(platform),
            (MigrationRun { platform, state: MigrationState::Unknown }, MigrationAction::ReadMarker)
        );
    }
}

#[test]
fn current_marker_rests() {
    let (run, action) = begun(Platform::Unix).step(MigrationEvent::MarkerRead(Some("19".to_string())));
    assert_eq!(run.state, MigrationState::UpToDate);
    assert_eq!(action, MigrationAction::Rest);
    let (run, action) =
        begun(Platform::Windows).step(MigrationEvent::MarkerRead(Some("20".to_string())));
    assert_eq!(run.state, MigrationState::UpToDate);
    assert_eq!(action, MigrationAction::Rest);
}

#[test]
fn unreadable_marker_bootstraps() {
    for marker in [None, Some("abc".to_string()), Some(String::new()), Some("0".to_string())] {
        let (run, action) = begun(Platform::Unix).step(MigrationEvent::MarkerRead(marker));
        assert_eq!(run.state, MigrationState::Bootstrapping);
        assert_eq!(
            action,
            MigrationAction::Run {
                ops: nvm_desktop::migrate::update_schema_from_basic(Platform::Unix)
            }
        );
    }
}

#[test]
fn marker_behind_prepares_the_refresh() {
    let (run, action) = begun(Platform::Windows).step(MigrationEvent::MarkerRead(Some("7".to_string())));
    assert_eq!(run.state, MigrationState::Preparing);
    assert_eq!(
        action,
        MigrationAction::Run { ops: nvm_desktop::migrate::prepare(Platform::Windows) }
    );
}

#[test]
fn refresh_follows_the_fresh_install() {
    let run = MigrationRun { platform: Platform::Unix, state: MigrationState::Bootstrapping };
    let (run, action) = run.step(MigrationEvent::Completed);
    assert_eq!(run.state, MigrationState::Preparing);
    assert_eq!(action, MigrationAction::Run { ops: nvm_desktop::migrate::prepare(Platform::Unix) });
}

#[test]
fn unix_concludes_without_listing() {
    let run = MigrationRun { platform: Platform::Unix, state: MigrationState::Preparing };
    let (run, action) = run.step(MigrationEvent::Completed);
    assert_eq!(run.state, MigrationState::Normalizing);
    assert_eq!(action, MigrationAction::Run { ops: vec![FileOp::SaveVersion { version: 19 }] });
}

#[test]
fn windows_lists_before_it_concludes() {
    let run = MigrationRun { platform: Platform::Windows, state: MigrationState::Preparing };
    let (run, action) = run.step(MigrationEvent::Completed);
    assert_eq!(run.state, MigrationState::Listing);
    assert_eq!(action, MigrationAction::List);
    let entries = vec!["yarn.exe".to_string(), "readme".to_string()];
    let (run, action) = run.step(MigrationEvent::Listed(entries));
    assert_eq!(run.state, MigrationState::Normalizing);
    assert_eq!(
        action,
        MigrationAction::Run {
            ops: vec![
                FileOp::Copy { source: "nvmd.exe".to_string(), target: "yarn.exe".to_string() },
                FileOp::SaveVersion { version: 19 },
            ]
        }
    );
}

#[test]
fn concluded_run_is_up_to_date() {
    let run = MigrationRun { platform: Platform::Windows, state: MigrationState::Normalizing };
    let (run, action) = run.step(MigrationEvent::Completed);
    assert_eq!(run.state, MigrationState::UpToDate);
    assert_eq!(action, MigrationAction::Rest);
}

#[test]
fn failure_is_reported_from_every_working_state() {
    for state in [
        MigrationState::Bootstrapping,
        MigrationState::Preparing,
        MigrationState::Listing,
        MigrationState::Normalizing,
    ] {
        let run = MigrationRun { platform: Platform::Windows, state };
        let (run, action) = run.step(MigrationEvent::Failed);
        assert_eq!(run.state, MigrationState::Failed);
        assert_eq!(action, report());
    }
}

#[test]
fn events_that_are_not_awaited_are_ignored() {
    for state in [MigrationState::Unknown, MigrationState::UpToDate, MigrationState::Failed] {
        let run = MigrationRun { platform: Platform::Unix, state };
        assert_eq!(run.step(MigrationEvent::Completed), (run, MigrationAction::Ignored));
        assert_eq!(run.step(MigrationEvent::Failed), (run, MigrationAction::Ignored));
        assert_eq!(run.step(MigrationEvent::Listed(Vec::new())), (run, MigrationAction::Ignored));
    }
    for state in [
        MigrationState::Bootstrapping,
        MigrationState::Preparing,
        MigrationState::Listing,
        MigrationState::Normalizing,
        MigrationState::UpToDate,
        MigrationState::Failed,
    ] {
        let run = MigrationRun { platform: Platform::Unix, state };
        assert_eq!(run.step(MigrationEvent::MarkerRead(None)), (run, MigrationAction::Ignored));
    }
    let listing = MigrationRun { platform: Platform::Windows, state: MigrationState::Listing };
    assert_eq!(listing.step(MigrationEvent::Completed), (listing, MigrationAction::Ignored));
    let normalizing =
        MigrationRun { platform: Platform::Windows, state: MigrationState::Normalizing };
    assert_eq!(
        normalizing.step(MigrationEvent::Listed(Vec::new())),
        (normalizing, MigrationAction::Ignored)
    );
}

#[test]
fn fresh_install_on_unix_ends_at_the_current_version() {
    let mut disk = Disk::with_marker(None);
    assert_eq!(migrate(Platform::Unix, &mut disk, None), MigrationState::UpToDate);
    assert_eq!(disk.marker, Some("19".to_string()));
    assert!(disk.has_bin);
    let mut expected = BTreeMap::new();
    expected.insert("nvmd".to_string(), copy_of("nvmd"));
    for name in ["node", "npm", "npx", "corepack"] {
        expected.insert(name.to_string(), link_to("nvmd"));
    }
    assert_eq!(disk.bin, expected);
}

#[test]
fn fresh_install_on_windows_ends_at_the_current_version() {
    let mut disk = Disk::with_marker(Some("abc"));
    assert_eq!(migrate(Platform::Windows, &mut disk, None), MigrationState::UpToDate);
    assert_eq!(disk.marker, Some("19".to_string()));
    let mut expected = BTreeMap::new();
    for name in ["nvmd.exe", "node.exe", "npm.exe", "npx.exe", "corepack.exe"] {
        expected.insert(name.to_string(), copy_of("nvmd.exe"));
    }
    for name in ["npm.cmd", "npx.cmd", "corepack.cmd"] {
        expected.insert(name.to_string(), copy_of("temp.cmd"));
    }
    assert_eq!(disk.bin, expected);
}

#[test]
fn refresh_on_windows_reaches_executables_that_the_user_added() {
    let mut disk = Disk::with_marker(Some("12"));
    disk.has_bin = true;
    disk.bin.insert("yarn.exe".to_string(), Entry::Other(1));
    disk.bin.insert("yarn.cmd".to_string(), Entry::Other(2));
    disk.bin.insert("node.exe".to_string(), Entry::Other(3));
    assert_eq!(migrate(Platform::Windows, &mut disk, None), MigrationState::UpToDate);
    assert_eq!(disk.marker, Some("19".to_string()));
    let mut expected = BTreeMap::new();
    for name in ["nvmd.exe", "node.exe", "yarn.exe"] {
        expected.insert(name.to_string(), copy_of("nvmd.exe"));
    }
    expected.insert("yarn.cmd".to_string(), Entry::Other(2));
    assert_eq!(disk.bin, expected);
}

#[test]
fn refresh_on_unix_recopies_the_dispatcher_only() {
    let mut disk = Disk::with_marker(Some("18"));
    disk.has_bin = true;
    disk.bin.insert("nvmd".to_string(), Entry::Other(1));
    disk.bin.insert("node".to_string(), Entry::Other(2));
    assert_eq!(migrate(Platform::Unix, &mut disk, None), MigrationState::UpToDate);
    assert_eq!(disk.marker, Some("19".to_string()));
    let mut expected = BTreeMap::new();
    expected.insert("nvmd".to_string(), copy_of("nvmd"));
    expected.insert("node".to_string(), Entry::Other(2));
    assert_eq!(disk.bin, expected);
}

#[test]
fn migration_is_idempotent() {
    for platform in [Platform::Unix, Platform::Windows] {
        for marker in [None, Some("0"), Some("5"), Some("18"), Some("19"), Some("25"), Some("x")] {
            let mut once = Disk::with_marker(marker);
            once.has_bin = true;
            once.bin.insert("tool.exe".to_string(), Entry::Other(7));
            once.bin.insert("notes.txt".to_string(), Entry::Other(8));
            migrate(platform, &mut once, None);
            let mut twice = once.clone();
            assert_eq!(migrate(platform, &mut twice, None), MigrationState::UpToDate);
            assert_eq!(twice, once);
        }
    }
}

#[test]
fn migration_from_below_ends_exactly_at_the_current_version() {
    for platform in [Platform::Unix, Platform::Windows] {
        let mut version: i16 = -3;
        while version < 19 {
            let text = version.to_string();
            let mut disk = Disk::with_marker(Some(&text));
            assert_eq!(migrate(platform, &mut disk, None), MigrationState::UpToDate);
            assert_eq!(disk.marker, Some("19".to_string()));
            version += 1;
        }
    }
}

#[test]
fn migration_from_the_current_version_or_beyond_changes_nothing() {
    for platform in [Platform::Unix, Platform::Windows] {
        for marker in ["19", "20", "32767"] {
            let mut disk = Disk::with_marker(Some(marker));
            disk.bin.insert("node.exe".to_string(), Entry::Other(1));
            let before = disk.clone();
            assert_eq!(migrate(platform, &mut disk, None), MigrationState::UpToDate);
            assert_eq!(disk, before);
        }
    }
}

#[test]
fn failed_migration_leaves_the_marker() {
    for platform in [Platform::Unix, Platform::Windows] {
        for marker in [None, Some("4")] {
            let mut whole = Disk::with_marker(marker);
            whole.has_bin = true;
            whole.bin.insert("tool.exe".to_string(), Entry::Other(7));
            let start = whole.clone();
            migrate(platform, &mut whole, None);
            let mut fail_at = 0;
            loop {
                let mut disk = start.clone();
                let state = migrate(platform, &mut disk, Some(fail_at));
                if state == MigrationState::UpToDate {
                    assert_eq!(disk, whole);
                    break;
                }
                assert_eq!(state, MigrationState::Failed);
                assert_eq!(disk.marker, start.marker);
                assert_eq!(migrate(platform, &mut disk, None), MigrationState::UpToDate);
                assert_eq!(disk, whole);
                fail_at += 1;
            }
            assert!(fail_at >= 3);
        }
    }
}
