//! A model of the persisted state that a migration works on, and what a
//! migration run makes of it.

use crate::migrate::{
    bootstrap_ops, conclude_ops, dispatcher_name, has_exe_extension,
    lemma_version_text_reads_back, normalize_ops, prepare_ops, refresh_ops, schema_version_of,
    shim_ops, version_text,
    shims_ops, default_names, steps_from, FileOpView, MigrationStep, Platform,
    CURRENT_MIGRATION_VERSION,
};
use vstd::prelude::*;

verus! {

/// What stands under one name in the directory of the launcher shims.
pub ghost enum Entry {
    /// A copy of the resource `source`.
    Copy { source: Seq<char> },
    /// A symbolic link to `target`.
    Link { target: Seq<char> },
    /// Anything else; `id` tells one such content from another.
    Other { id: int },
}

/// The persisted state: the text of the marker file, `None` where there
/// is no such file; whether the directory of the launcher shims exists;
/// and what it holds.
pub ghost struct Disk {
    pub marker: Option<Seq<char>>,
    pub has_bin: bool,
    pub bin: Map<Seq<char>, Entry>,
}

impl Disk {
    /// The schema version that the marker stands for.
    pub open spec fn version(self) -> int {
        schema_version_of(self.marker)
    }
}

/// The state after `op` has succeeded on `disk`.
pub open spec fn apply_op(op: FileOpView, disk: Disk) -> Disk {
    match op {
        FileOpView::CreateBinDir => Disk { has_bin: true, ..disk },
        FileOpView::Copy { source, target } => Disk {
            bin: disk.bin.insert(target, Entry::Copy { source }),
            ..disk
        },
        FileOpView::Link { target, name } => Disk {
            bin: disk.bin.insert(name, Entry::Link { target }),
            ..disk
        },
        FileOpView::SaveVersion { version } => Disk {
            marker: Some(version_text(version)),
            ..disk
        },
    }
}

/// The state after each of `ops` has succeeded in turn, starting on `disk`.
pub open spec fn apply_ops(ops: Seq<FileOpView>, disk: Disk) -> Disk
    decreases ops.len(),
{
    if ops.len() == 0 {
        disk
    } else {
        apply_op(ops.last(), apply_ops(ops.drop_last(), disk))
    }
}

/// The files of a fresh install.
pub open spec fn shim_files(platform: Platform) -> Map<Seq<char>, Entry> {
    match platform {
        Platform::Unix => map![
            "nvmd"@ => Entry::Copy { source: "nvmd"@ },
            "node"@ => Entry::Link { target: "nvmd"@ },
            "npm"@ => Entry::Link { target: "nvmd"@ },
            "npx"@ => Entry::Link { target: "nvmd"@ },
            "corepack"@ => Entry::Link { target: "nvmd"@ },
        ],
        Platform::Windows => map![
            "nvmd.exe"@ => Entry::Copy { source: "nvmd.exe"@ },
            "node.exe"@ => Entry::Copy { source: "nvmd.exe"@ },
            "npm.exe"@ => Entry::Copy { source: "nvmd.exe"@ },
            "npm.cmd"@ => Entry::Copy { source: "temp.cmd"@ },
            "npx.exe"@ => Entry::Copy { source: "nvmd.exe"@ },
            "npx.cmd"@ => Entry::Copy { source: "temp.cmd"@ },
            "corepack.exe"@ => Entry::Copy { source: "nvmd.exe"@ },
            "corepack.cmd"@ => Entry::Copy { source: "temp.cmd"@ },
        ],
    }
}

/// The state after a fresh install on `disk`: the directory exists and
/// holds the files of a fresh install; what else it held is untouched, and
/// so is the marker.
pub open spec fn bootstrapped(platform: Platform, disk: Disk) -> Disk {
    Disk {
        marker: disk.marker,
        has_bin: true,
        bin: disk.bin.union_prefer_right(shim_files(platform)),
    }
}

/// The state after a refresh on `disk`: the directory exists, the
/// dispatcher binary stands under its own name, on [`Platform::Windows`]
/// every executable in the directory is a copy of it, and the marker holds
/// the current schema version.
pub open spec fn normalized(platform: Platform, disk: Disk) -> Disk {
    let dispatcher = Entry::Copy { source: dispatcher_name(platform) };
    Disk {
        marker: Some(version_text(CURRENT_MIGRATION_VERSION as int)),
        has_bin: true,
        bin: match platform {
            Platform::Unix => disk.bin.insert(dispatcher_name(platform), dispatcher),
            Platform::Windows => Map::new(
                |name: Seq<char>| disk.bin.contains_key(name) || name == dispatcher_name(platform),
                |name: Seq<char>|
                    if name == dispatcher_name(platform) || has_exe_extension(name) {
                        dispatcher
                    } else {
                        disk.bin[name]
                    },
            ),
        },
    }
}

/// The state that the refresh of a run from `disk` starts on: after the
/// fresh install where the run begins with it.
pub open spec fn refresh_start(platform: Platform, disk: Disk) -> Disk {
    if disk.version() == 0 {
        bootstrapped(platform, disk)
    } else {
        disk
    }
}

/// The state after a migration run on `disk` in which every operation
/// succeeded.
pub open spec fn migrated(platform: Platform, disk: Disk) -> Disk {
    if disk.version() >= CURRENT_MIGRATION_VERSION {
        disk
    } else {
        normalized(platform, refresh_start(platform, disk))
    }
}

/// A migration run is idempotent: a second run right after the first
/// leaves the marker and the directory of the launcher shims as the first
/// left them.
pub proof fn lemma_migration_idempotent(platform: Platform, disk: Disk)
    ensures
        migrated(platform, migrated(platform, disk)) == migrated(platform, disk),
{
    lemma_version_text_reads_back(CURRENT_MIGRATION_VERSION as int);
}

/// From any schema version below the current one, a migration run leaves
/// the marker at exactly the current schema version: that is what the
/// marker file holds then, and what is read off it.
pub proof fn lemma_migration_reaches_current(platform: Platform, disk: Disk)
    requires
        disk.version() < CURRENT_MIGRATION_VERSION,
    ensures
        migrated(platform, disk).marker == Some(version_text(CURRENT_MIGRATION_VERSION as int)),
        migrated(platform, disk).version() == CURRENT_MIGRATION_VERSION,
{
    lemma_version_text_reads_back(CURRENT_MIGRATION_VERSION as int);
}

/// A migration run never lowers the schema version, and leaves it at the
/// current one or above.
pub proof fn lemma_migration_never_lowers(platform: Platform, disk: Disk)
    ensures
        migrated(platform, disk).version() >= disk.version(),
        migrated(platform, disk).version() >= CURRENT_MIGRATION_VERSION,
{
    lemma_version_text_reads_back(CURRENT_MIGRATION_VERSION as int);
}

/// Running `ops` and then `op` is running `ops` with `op` appended.
proof fn lemma_apply_push(ops: Seq<FileOpView>, op: FileOpView, disk: Disk)
    ensures
        apply_ops(ops.push(op), disk) == apply_op(op, apply_ops(ops, disk)),
{
    assert(ops.push(op).drop_last() =~= ops);
}

/// Running `first` and then `second` is running the two in one sequence.
pub proof fn lemma_apply_concat(first: Seq<FileOpView>, second: Seq<FileOpView>, disk: Disk)
    ensures
        apply_ops(first + second, disk) == apply_ops(second, apply_ops(first, disk)),
    decreases second.len(),
{
    if second.len() == 0 {
        assert(first + second =~= first);
    } else {
        lemma_apply_concat(first, second.drop_last(), disk);
        assert((first + second).drop_last() =~= first + second.drop_last());
    }
}

/// What the first operations of either step make of `disk`.
proof fn lemma_prepare_ops(platform: Platform, disk: Disk)
    ensures
        apply_ops(prepare_ops(platform), disk) == (Disk {
            marker: disk.marker,
            has_bin: true,
            bin: disk.bin.insert(
                dispatcher_name(platform),
                Entry::Copy { source: dispatcher_name(platform) },
            ),
        }),
{
    let create = FileOpView::CreateBinDir;
    let copy = FileOpView::Copy {
        source: dispatcher_name(platform),
        target: dispatcher_name(platform),
    };
    let none = Seq::<FileOpView>::empty();
    lemma_apply_push(none, create, disk);
    lemma_apply_push(none.push(create), copy, disk);
    assert(prepare_ops(platform) =~= none.push(create).push(copy));
}

/// The state after the executables among `entries` have been refreshed on
/// `disk`.
pub open spec fn refreshed(entries: Seq<Seq<char>>, disk: Disk) -> Disk {
    Disk {
        bin: Map::new(
            |name: Seq<char>|
                disk.bin.contains_key(name) || (entries.contains(name) && has_exe_extension(name)),
            |name: Seq<char>|
                if entries.contains(name) && has_exe_extension(name) {
                    Entry::Copy { source: "nvmd.exe"@ }
                } else {
                    disk.bin[name]
                },
        ),
        ..disk
    }
}

/// The operations of [`refresh_ops`] make [`refreshed`] of a state.
proof fn lemma_refresh_ops(entries: Seq<Seq<char>>, disk: Disk)
    ensures
        apply_ops(refresh_ops(entries), disk) == refreshed(entries, disk),
    decreases entries.len(),
{
    if entries.len() == 0 {
        assert(refreshed(entries, disk).bin =~= disk.bin);
    } else {
        let rest = entries.drop_last();
        let last = entries.last();
        lemma_refresh_ops(rest, disk);
        assert forall|name: Seq<char>| entries.contains(name) <==> (rest.contains(name) || name
            == last) by {
            if rest.contains(name) {
                let i = choose|i: int| 0 <= i < rest.len() && rest[i] == name;
                assert(entries[i] == name);
            }
            if name == last {
                assert(entries[entries.len() - 1] == name);
            }
            if entries.contains(name) {
                let i = choose|i: int| 0 <= i < entries.len() && entries[i] == name;
                if i < rest.len() {
                    assert(rest[i] == name);
                }
            }
        }
        if has_exe_extension(last) {
            let copy = FileOpView::Copy { source: "nvmd.exe"@, target: last };
            lemma_apply_push(refresh_ops(rest), copy, disk);
            assert(refreshed(entries, disk).bin =~= refreshed(rest, disk).bin.insert(
                last,
                Entry::Copy { source: "nvmd.exe"@ },
            ));
        } else {
            assert(refreshed(entries, disk).bin =~= refreshed(rest, disk).bin);
        }
    }
}

/// Whether `entries` names the executables that the directory of the
/// launcher shims holds on `disk`, the dispatcher binary listed or not.
/// Names without the extension `exe` may be among `entries` or be missing.
pub open spec fn lists_executables(entries: Seq<Seq<char>>, disk: Disk) -> bool {
    &&& forall|name: Seq<char>|
        #![trigger disk.bin.contains_key(name)]
        disk.bin.contains_key(name) && has_exe_extension(name) ==> entries.contains(name)
    &&& forall|name: Seq<char>|
        #![trigger entries.contains(name)]
        entries.contains(name) && has_exe_extension(name) ==> disk.bin.contains_key(name) || name
            == "nvmd.exe"@
}

/// The operations of the refresh step make [`normalized`] of a state,
/// whenever the listing they were laid out for names the executables of
/// that state.
pub proof fn lemma_normalize_ops(platform: Platform, entries: Seq<Seq<char>>, disk: Disk)
    requires
        platform == Platform::Windows ==> lists_executables(entries, disk),
    ensures
        apply_ops(normalize_ops(platform, entries), disk) == normalized(platform, disk),
{
    let head = prepare_ops(platform);
    let save = FileOpView::SaveVersion { version: CURRENT_MIGRATION_VERSION as int };
    let none = Seq::<FileOpView>::empty();
    lemma_prepare_ops(platform, disk);
    lemma_apply_concat(head, conclude_ops(platform, entries), disk);
    let prepared = apply_ops(head, disk);
    match platform {
        Platform::Unix => {
            assert(conclude_ops(platform, entries) =~= none.push(save));
            lemma_apply_push(none, save, prepared);
        },
        Platform::Windows => {
            lemma_apply_push(refresh_ops(entries), save, prepared);
            lemma_refresh_ops(entries, prepared);
            assert(refreshed(entries, prepared).bin =~= normalized(platform, disk).bin);
        },
    }
}

/// The state after the shim of `name` has been laid out on `disk`.
pub open spec fn with_shim(platform: Platform, name: Seq<char>, disk: Disk) -> Disk {
    match platform {
        Platform::Unix => Disk {
            bin: disk.bin.insert(name, Entry::Link { target: "nvmd"@ }),
            ..disk
        },
        Platform::Windows => {
            let binary = disk.bin.insert(name + ".exe"@, Entry::Copy { source: "nvmd.exe"@ });
            if name == "node"@ {
                Disk { bin: binary, ..disk }
            } else {
                Disk {
                    bin: binary.insert(name + ".cmd"@, Entry::Copy { source: "temp.cmd"@ }),
                    ..disk
                }
            }
        },
    }
}

/// Laying out the shims of `names` and then that of `name` is laying out
/// those of `names` with `name` appended.
proof fn lemma_shims_push(platform: Platform, names: Seq<Seq<char>>, name: Seq<char>, disk: Disk)
    ensures
        apply_ops(shims_ops(platform, names.push(name)), disk) == with_shim(
            platform,
            name,
            apply_ops(shims_ops(platform, names), disk),
        ),
{
    let before = apply_ops(shims_ops(platform, names), disk);
    let ops = shim_ops(platform, name);
    let none = Seq::<FileOpView>::empty();
    assert(names.push(name).drop_last() =~= names);
    lemma_apply_concat(shims_ops(platform, names), ops, disk);
    lemma_apply_push(none, ops[0], before);
    if ops.len() == 1 {
        assert(ops =~= none.push(ops[0]));
    } else {
        lemma_apply_push(none.push(ops[0]), ops[1], before);
        assert(ops =~= none.push(ops[0]).push(ops[1]));
    }
}

/// The operations of the fresh install make [`bootstrapped`] of a state.
pub proof fn lemma_bootstrap_ops(platform: Platform, disk: Disk)
    ensures
        apply_ops(bootstrap_ops(platform), disk) == bootstrapped(platform, disk),
{
    reveal_strlit("node");
    reveal_strlit("npm");
    reveal_strlit("npx");
    reveal_strlit("corepack");
    reveal_strlit(".exe");
    reveal_strlit(".cmd");
    reveal_strlit("node.exe");
    reveal_strlit("npm.exe");
    reveal_strlit("npm.cmd");
    reveal_strlit("npx.exe");
    reveal_strlit("npx.cmd");
    reveal_strlit("corepack.exe");
    reveal_strlit("corepack.cmd");
    assert("node"@ + ".exe"@ =~= "node.exe"@);
    assert("npm"@ + ".exe"@ =~= "npm.exe"@);
    assert("npm"@ + ".cmd"@ =~= "npm.cmd"@);
    assert("npx"@ + ".exe"@ =~= "npx.exe"@);
    assert("npx"@ + ".cmd"@ =~= "npx.cmd"@);
    assert("corepack"@ + ".exe"@ =~= "corepack.exe"@);
    assert("corepack"@ + ".cmd"@ =~= "corepack.cmd"@);
    let head = prepare_ops(platform);
    let none = Seq::<Seq<char>>::empty();
    let one = none.push("node"@);
    let two = one.push("npm"@);
    let three = two.push("npx"@);
    assert(default_names() =~= three.push("corepack"@));
    lemma_prepare_ops(platform, disk);
    lemma_apply_concat(head, shims_ops(platform, default_names()), disk);
    let start = apply_ops(head, disk);
    assert(apply_ops(shims_ops(platform, none), start) == start);
    lemma_shims_push(platform, none, "node"@, start);
    lemma_shims_push(platform, one, "npm"@, start);
    lemma_shims_push(platform, two, "npx"@, start);
    lemma_shims_push(platform, three, "corepack"@, start);
    assert(apply_ops(bootstrap_ops(platform), disk).bin =~= bootstrapped(platform, disk).bin);
}

/// The operations of one step.
pub open spec fn step_ops(
    platform: Platform,
    step: MigrationStep,
    entries: Seq<Seq<char>>,
) -> Seq<FileOpView> {
    match step {
        MigrationStep::FromBasic => bootstrap_ops(platform),
        MigrationStep::ToLast => normalize_ops(platform, entries),
    }
}

/// The operations of `steps`, one step after the other. `entries` is the
/// listing that the refresh step is laid out for.
pub open spec fn steps_ops(
    platform: Platform,
    steps: Seq<MigrationStep>,
    entries: Seq<Seq<char>>,
) -> Seq<FileOpView>
    decreases steps.len(),
{
    if steps.len() == 0 {
        seq![]
    } else {
        steps_ops(platform, steps.drop_last(), entries) + step_ops(platform, steps.last(), entries)
    }
}

/// The operations of a whole run from schema version `version`.
pub open spec fn run_ops(platform: Platform, version: int, entries: Seq<Seq<char>>) -> Seq<
    FileOpView,
> {
    steps_ops(platform, steps_from(version), entries)
}

/// A migration run lays out its operations step by step; where each
/// listing names the executables of the state it was taken in, the
/// operations make [`migrated`] of the state they start on.
pub proof fn lemma_run_migrates(platform: Platform, entries: Seq<Seq<char>>, disk: Disk)
    requires
        platform == Platform::Windows && disk.version() < CURRENT_MIGRATION_VERSION
            ==> lists_executables(entries, refresh_start(platform, disk)),
    ensures
        apply_ops(run_ops(platform, disk.version(), entries), disk) == migrated(platform, disk),
{
    reveal_with_fuel(steps_ops, 3);
    let none = Seq::<MigrationStep>::empty();
    let steps = steps_from(disk.version());
    let last = normalize_ops(platform, entries);
    if disk.version() >= CURRENT_MIGRATION_VERSION {
    } else if disk.version() == 0 {
        assert(steps.drop_last() =~= none.push(MigrationStep::FromBasic));
        assert(steps.drop_last().drop_last() =~= none);
        assert(steps_ops(platform, steps.drop_last(), entries) =~= bootstrap_ops(platform));
        lemma_apply_concat(bootstrap_ops(platform), normalize_ops(platform, entries), disk);
        lemma_bootstrap_ops(platform, disk);
        lemma_normalize_ops(platform, entries, bootstrapped(platform, disk));
    } else {
        assert(steps.drop_last() =~= none);
        assert(steps_ops(platform, steps, entries) =~= last);
        lemma_normalize_ops(platform, entries, disk);
    }
}

} // verus!
