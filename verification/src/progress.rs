//! What a migration run has made of the persisted state, at any point of
//! the run.

use crate::disk::{
    apply_ops, lemma_bootstrap_ops, lemma_run_migrates, lists_executables, migrated,
    refresh_start, run_ops, shim_files, steps_ops, Disk,
};
use crate::migrate::{
    bootstrap_ops, conclude_ops, default_names, dispatcher_name, has_exe_extension,
    normalize_ops, prepare_ops, refresh_ops, schema_version_of, shims_ops, steps_from,
    FileOpView, MigrationStep, Platform, CURRENT_MIGRATION_VERSION,
};
use crate::migrator::{
    migration_next, MigrationActionView, MigrationEventView, MigrationRun, MigrationState,
};
use vstd::prelude::*;

verus! {

/// How far a migration run has come: where it stands, the operations that
/// are done, and the operations that it asked for last and has not heard
/// of, or has heard to have failed.
pub ghost struct Progress {
    pub run: MigrationRun,
    pub done: Seq<FileOpView>,
    pub pending: Seq<FileOpView>,
}

/// How far a run has come when it had come as far as `before` and `event`
/// came in: a batch of operations that is followed by anything but a
/// failure is done; the batch that failed stays as it is.
pub open spec fn advance(before: Progress, event: MigrationEventView) -> Progress {
    let step = migration_next(before.run, event);
    match step.action {
        MigrationActionView::Ignored | MigrationActionView::ReadMarker => before,
        MigrationActionView::Report { .. } => Progress { run: step.run, ..before },
        MigrationActionView::Run { ops } => Progress {
            run: step.run,
            done: before.done + before.pending,
            pending: ops,
        },
        MigrationActionView::List | MigrationActionView::Rest => Progress {
            run: step.run,
            done: before.done + before.pending,
            pending: Seq::empty(),
        },
    }
}

/// How far a migration run on `platform` has come when `events` have come
/// in one by one.
pub open spec fn progress(platform: Platform, events: Seq<MigrationEventView>) -> Progress
    decreases events.len(),
{
    if events.len() == 0 {
        Progress {
            run: MigrationRun { platform, state: MigrationState::Unknown },
            done: Seq::empty(),
            pending: Seq::empty(),
        }
    } else {
        advance(progress(platform, events.drop_last()), events.last())
    }
}

/// The events of a refresh in which every action succeeds: one success
/// for each of the two batches of operations, and on [`Platform::Windows`]
/// the listing between them.
pub open spec fn refresh_events(platform: Platform, entries: Seq<Seq<char>>) -> Seq<
    MigrationEventView,
> {
    match platform {
        Platform::Unix => seq![MigrationEventView::Completed, MigrationEventView::Completed],
        Platform::Windows => seq![
            MigrationEventView::Completed,
            MigrationEventView::Listed(entries),
            MigrationEventView::Completed,
        ],
    }
}

/// The events of a migration run in which every action succeeds: the
/// marker, a success for the fresh install where it is owed, and the
/// events of the refresh where it is owed.
pub open spec fn success_events(
    platform: Platform,
    marker: Option<Seq<char>>,
    entries: Seq<Seq<char>>,
) -> Seq<MigrationEventView> {
    let read = seq![MigrationEventView::MarkerRead(marker)];
    let version = schema_version_of(marker);
    if version >= CURRENT_MIGRATION_VERSION {
        read
    } else if version == 0 {
        read.push(MigrationEventView::Completed) + refresh_events(platform, entries)
    } else {
        read + refresh_events(platform, entries)
    }
}

/// The listing that the refresh goes by: the one given on
/// [`Platform::Windows`], none on [`Platform::Unix`].
pub open spec fn listing_used(platform: Platform, entries: Seq<Seq<char>>) -> Seq<Seq<char>> {
    match platform {
        Platform::Unix => Seq::empty(),
        Platform::Windows => entries,
    }
}

/// One more event takes a run one move further.
proof fn lemma_progress_push(
    platform: Platform,
    events: Seq<MigrationEventView>,
    event: MigrationEventView,
)
    ensures
        progress(platform, events.push(event)) == advance(progress(platform, events), event),
{
    assert(events.push(event).drop_last() =~= events);
}

/// A refresh in which every action succeeds ends up to date, and has done
/// the operations of the refresh after those done before.
proof fn lemma_refresh_succeeds(
    platform: Platform,
    events: Seq<MigrationEventView>,
    entries: Seq<Seq<char>>,
)
    requires
        progress(platform, events).run == (MigrationRun {
            platform,
            state: MigrationState::Preparing,
        }),
        progress(platform, events).pending == prepare_ops(platform),
    ensures
        ({
            let start = progress(platform, events);
            let end = progress(platform, events + refresh_events(platform, entries));
            &&& end.run.state == MigrationState::UpToDate
            &&& end.pending.len() == 0
            &&& end.done == start.done + normalize_ops(
                platform,
                listing_used(platform, entries),
            )
        }),
{
    let done = MigrationEventView::Completed;
    let list = MigrationEventView::Listed(entries);
    let start = progress(platform, events);
    lemma_progress_push(platform, events, done);
    let prepared = events.push(done);
    let listed = match platform {
        Platform::Unix => prepared,
        Platform::Windows => {
            lemma_progress_push(platform, prepared, list);
            prepared.push(list)
        },
    };
    let concluding = progress(platform, listed);
    assert(concluding.run.state == MigrationState::Normalizing);
    assert(concluding.pending == conclude_ops(platform, listing_used(platform, entries)));
    assert(concluding.done =~= start.done + prepare_ops(platform));
    lemma_progress_push(platform, listed, done);
    assert(events + refresh_events(platform, entries) =~= listed.push(done));
    let end = progress(platform, listed.push(done));
    assert(end.done =~= start.done + normalize_ops(platform, listing_used(platform, entries)));
}

/// A run in which every action succeeds ends up to date, and has done the
/// operations of each step owed, one step after the other.
pub proof fn lemma_successful_run(
    platform: Platform,
    marker: Option<Seq<char>>,
    entries: Seq<Seq<char>>,
)
    ensures
        ({
            let end = progress(platform, success_events(platform, marker, entries));
            &&& end.run.state == MigrationState::UpToDate
            &&& end.pending.len() == 0
            &&& end.done == run_ops(
                platform,
                schema_version_of(marker),
                listing_used(platform, entries),
            )
        }),
{
    reveal_with_fuel(steps_ops, 3);
    let version = schema_version_of(marker);
    let listed = listing_used(platform, entries);
    let steps = steps_from(version);
    let none = Seq::<MigrationEventView>::empty();
    let read = none.push(MigrationEventView::MarkerRead(marker));
    lemma_progress_push(platform, none, MigrationEventView::MarkerRead(marker));
    assert(read =~= seq![MigrationEventView::MarkerRead(marker)]);
    let first = progress(platform, read);
    if version >= CURRENT_MIGRATION_VERSION {
        assert(first.done =~= Seq::<FileOpView>::empty());
    } else if version == 0 {
        let installed = read.push(MigrationEventView::Completed);
        lemma_progress_push(platform, read, MigrationEventView::Completed);
        assert(progress(platform, installed).done =~= bootstrap_ops(platform));
        lemma_refresh_succeeds(platform, installed, entries);
        assert(steps.drop_last() =~= seq![MigrationStep::FromBasic]);
        assert(steps.drop_last().drop_last() =~= Seq::<MigrationStep>::empty());
        assert(steps_ops(platform, steps.drop_last(), listed) =~= bootstrap_ops(platform));
    } else {
        assert(first.done =~= Seq::<FileOpView>::empty());
        lemma_refresh_succeeds(platform, read, entries);
        assert(steps.drop_last() =~= Seq::<MigrationStep>::empty());
        assert(steps_ops(platform, steps, listed) =~= normalize_ops(platform, listed));
        assert(first.done + normalize_ops(platform, listed) =~= normalize_ops(platform, listed));
    }
}

/// A run in which every action succeeds makes
/// [`migrated`](crate::disk::migrated) of the persisted state it starts on,
/// where the marker it read is the marker of that state, and the listing
/// it was given names the executables that the directory held by then.
pub proof fn lemma_successful_run_migrates(
    platform: Platform,
    marker: Option<Seq<char>>,
    entries: Seq<Seq<char>>,
    disk: Disk,
)
    requires
        disk.marker == marker,
        platform == Platform::Windows && disk.version() < CURRENT_MIGRATION_VERSION
            ==> lists_executables(entries, refresh_start(platform, disk)),
    ensures
        apply_ops(progress(platform, success_events(platform, marker, entries)).done, disk)
            == migrated(platform, disk),
{
    lemma_successful_run(platform, marker, entries);
    lemma_run_migrates(platform, listing_used(platform, entries), disk);
}

/// Whether none of `ops` writes the marker.
pub open spec fn saves_nothing(ops: Seq<FileOpView>) -> bool {
    forall|i: int| 0 <= i < ops.len() ==> !(#[trigger] ops[i] is SaveVersion)
}

/// Operations that do not write the marker leave it as it is.
pub proof fn lemma_version_kept(ops: Seq<FileOpView>, disk: Disk)
    requires
        saves_nothing(ops),
    ensures
        apply_ops(ops, disk).marker == disk.marker,
    decreases ops.len(),
{
    if ops.len() > 0 {
        assert(!(ops[ops.len() - 1] is SaveVersion));
        assert forall|i: int| 0 <= i < ops.drop_last().len() implies !(
        #[trigger] ops.drop_last()[i] is SaveVersion) by {
            assert(ops.drop_last()[i] == ops[i]);
        }
        lemma_version_kept(ops.drop_last(), disk);
    }
}

/// Laying out shims writes no marker.
proof fn lemma_shims_save_nothing(platform: Platform, names: Seq<Seq<char>>)
    ensures
        saves_nothing(shims_ops(platform, names)),
    decreases names.len(),
{
    if names.len() > 0 {
        lemma_shims_save_nothing(platform, names.drop_last());
    }
}

/// Refreshing executables writes no marker.
proof fn lemma_refresh_saves_nothing(entries: Seq<Seq<char>>)
    ensures
        saves_nothing(refresh_ops(entries)),
    decreases entries.len(),
{
    if entries.len() > 0 {
        lemma_refresh_saves_nothing(entries.drop_last());
    }
}

/// Whether a run that has come as far as `at` has kept off the marker in
/// all but the last operation that it asked for.
pub open spec fn marker_kept(at: Progress) -> bool {
    &&& at.run.state != MigrationState::UpToDate ==> saves_nothing(at.done)
    &&& at.run.state != MigrationState::Normalizing && at.run.state != MigrationState::Failed
        ==> saves_nothing(at.pending)
    &&& at.pending.len() > 0 ==> saves_nothing(at.pending.drop_last())
}

/// A run keeps off the marker until its very last operation, whatever
/// events come in.
pub proof fn lemma_marker_kept(platform: Platform, events: Seq<MigrationEventView>)
    ensures
        marker_kept(progress(platform, events)),
    decreases events.len(),
{
    if events.len() > 0 {
        lemma_marker_kept(platform, events.drop_last());
        let before = progress(platform, events.drop_last());
        let step = migration_next(before.run, events.last());
        let after = progress(platform, events);
        let host = before.run.platform;
        lemma_shims_save_nothing(host, default_names());
        let listed = match events.last() {
            MigrationEventView::Listed(entries) => entries,
            _ => Seq::empty(),
        };
        lemma_refresh_saves_nothing(listed);
        if step.action is Run && after.run.state == MigrationState::Normalizing {
            assert(after.pending == conclude_ops(host, listed));
            assert(after.pending.drop_last() =~= match host {
                Platform::Unix => Seq::empty(),
                Platform::Windows => refresh_ops(listed),
            });
        }
    }
}

/// The marker is written last: at any point of a run that is not up to
/// date, where the first `k` of the operations asked for last have
/// succeeded and one that writes the marker has not, the marker is as the
/// run found it. So it is after a failure.
pub proof fn lemma_marker_written_last(
    platform: Platform,
    events: Seq<MigrationEventView>,
    k: int,
    disk: Disk,
)
    requires
        progress(platform, events).run.state != MigrationState::UpToDate,
        0 <= k <= progress(platform, events).pending.len(),
        k < progress(platform, events).pending.len() || saves_nothing(
            progress(platform, events).pending,
        ),
    ensures
        apply_ops(
            progress(platform, events).done + progress(platform, events).pending.take(k),
            disk,
        ).marker == disk.marker,
{
    let at = progress(platform, events);
    lemma_marker_kept(platform, events);
    let begun = at.pending.take(k);
    assert(saves_nothing(begun)) by {
        assert forall|i: int| 0 <= i < begun.len() implies !(#[trigger] begun[i] is SaveVersion) by {
            if k < at.pending.len() {
                assert(at.pending.drop_last()[i] == begun[i]);
            } else {
                assert(at.pending[i] == begun[i]);
            }
        }
    }
    lemma_version_kept(at.done + begun, disk);
}

/// Where one of `ops` creates the directory of the launcher shims, the
/// directory is there once `ops` have succeeded.
proof fn lemma_directory_made(ops: Seq<FileOpView>, disk: Disk, i: int)
    requires
        0 <= i < ops.len(),
        ops[i] is CreateBinDir,
    ensures
        apply_ops(ops, disk).has_bin,
    decreases ops.len(),
{
    if i < ops.len() - 1 {
        assert(ops.drop_last()[i] == ops[i]);
        lemma_directory_made(ops.drop_last(), disk, i);
    }
}

/// The directory comes first: no operation of a run writes into the
/// directory of the launcher shims before the run has created it.
pub proof fn lemma_directory_comes_first(
    platform: Platform,
    version: int,
    entries: Seq<Seq<char>>,
    disk: Disk,
    k: int,
)
    requires
        0 <= k < run_ops(platform, version, entries).len(),
        run_ops(platform, version, entries)[k] is Copy || run_ops(platform, version, entries)[k]
            is Link,
    ensures
        apply_ops(run_ops(platform, version, entries).take(k), disk).has_bin,
{
    reveal_with_fuel(steps_ops, 3);
    let ops = run_ops(platform, version, entries);
    let steps = steps_from(version);
    if version == 0 {
        assert(steps.drop_last() =~= seq![MigrationStep::FromBasic]);
        assert(steps.drop_last().drop_last() =~= Seq::<MigrationStep>::empty());
    } else {
        assert(steps.drop_last() =~= Seq::<MigrationStep>::empty());
    }
    assert(ops[0] is CreateBinDir);
    assert(ops.take(k)[0] == ops[0]);
    lemma_directory_made(ops.take(k), disk, 0);
}

/// Whether `op` writes the entry `name` of the directory of the launcher
/// shims.
pub open spec fn writes(op: FileOpView, name: Seq<char>) -> bool {
    match op {
        FileOpView::Copy { source, target } => target == name,
        FileOpView::Link { target, name: link } => link == name,
        _ => false,
    }
}

/// Whether one of `ops` writes the entry `name`.
pub open spec fn written(ops: Seq<FileOpView>, name: Seq<char>) -> bool
    decreases ops.len(),
{
    ops.len() > 0 && (writes(ops.last(), name) || written(ops.drop_last(), name))
}

proof fn lemma_written_push(ops: Seq<FileOpView>, op: FileOpView, name: Seq<char>)
    ensures
        written(ops.push(op), name) == (writes(op, name) || written(ops, name)),
{
    assert(ops.push(op).drop_last() =~= ops);
}

proof fn lemma_written_concat(first: Seq<FileOpView>, second: Seq<FileOpView>, name: Seq<char>)
    ensures
        written(first + second, name) == (written(first, name) || written(second, name)),
    decreases second.len(),
{
    if second.len() == 0 {
        assert(first + second =~= first);
    } else {
        lemma_written_concat(first, second.drop_last(), name);
        assert((first + second).drop_last() =~= first + second.drop_last());
    }
}

proof fn lemma_written_prefix(ops: Seq<FileOpView>, k: int, name: Seq<char>)
    requires
        0 <= k <= ops.len(),
        written(ops.take(k), name),
    ensures
        written(ops, name),
{
    assert(ops =~= ops.take(k) + ops.skip(k));
    lemma_written_concat(ops.take(k), ops.skip(k), name);
}

/// Operations leave alone every entry that none of them writes, and an
/// entry that one of them writes is there afterwards.
pub proof fn lemma_footprint(ops: Seq<FileOpView>, disk: Disk, name: Seq<char>)
    ensures
        apply_ops(ops, disk).bin.contains_key(name) == (disk.bin.contains_key(name) || written(
            ops,
            name,
        )),
        !written(ops, name) ==> apply_ops(ops, disk).bin[name] == disk.bin[name],
    decreases ops.len(),
{
    if ops.len() > 0 {
        lemma_footprint(ops.drop_last(), disk, name);
    }
}

proof fn lemma_refresh_written(entries: Seq<Seq<char>>, name: Seq<char>)
    ensures
        written(refresh_ops(entries), name) ==> entries.contains(name) && has_exe_extension(name),
    decreases entries.len(),
{
    if entries.len() > 0 {
        let rest = entries.drop_last();
        lemma_refresh_written(rest, name);
        if has_exe_extension(entries.last()) {
            lemma_written_push(
                refresh_ops(rest),
                FileOpView::Copy { source: "nvmd.exe"@, target: entries.last() },
                name,
            );
        }
        if rest.contains(name) {
            let i = choose|i: int| 0 <= i < rest.len() && rest[i] == name;
            assert(entries[i] == name);
        }
        if entries.last() == name {
            assert(entries[entries.len() - 1] == name);
        }
    }
}

proof fn lemma_prepare_written(platform: Platform, name: Seq<char>)
    ensures
        written(prepare_ops(platform), name) == (name == dispatcher_name(platform)),
{
    let none = Seq::<FileOpView>::empty();
    let create = FileOpView::CreateBinDir;
    let copy = FileOpView::Copy {
        source: dispatcher_name(platform),
        target: dispatcher_name(platform),
    };
    assert(prepare_ops(platform) =~= none.push(create).push(copy));
    lemma_written_push(none, create, name);
    lemma_written_push(none.push(create), copy, name);
}

proof fn lemma_conclude_written(platform: Platform, entries: Seq<Seq<char>>, name: Seq<char>)
    ensures
        written(conclude_ops(platform, entries), name) ==> platform == Platform::Windows
            && entries.contains(name) && has_exe_extension(name),
{
    let none = Seq::<FileOpView>::empty();
    let save = FileOpView::SaveVersion { version: CURRENT_MIGRATION_VERSION as int };
    match platform {
        Platform::Unix => {
            assert(conclude_ops(platform, entries) =~= none.push(save));
            lemma_written_push(none, save, name);
        },
        Platform::Windows => {
            lemma_written_push(refresh_ops(entries), save, name);
            lemma_refresh_written(entries, name);
        },
    }
}

/// The fresh install writes the files of a fresh install, and no others.
proof fn lemma_bootstrap_written(platform: Platform, name: Seq<char>)
    ensures
        written(bootstrap_ops(platform), name) == shim_files(platform).contains_key(name),
{
    let blank = Disk { marker: None, has_bin: false, bin: Map::empty() };
    lemma_bootstrap_ops(platform, blank);
    lemma_footprint(bootstrap_ops(platform), blank, name);
}

/// A run that has failed can be run again: where the first `k` operations
/// of a run have succeeded and a later one has failed, a whole run on the
/// state that was left behind ends where a whole run on the state before
/// would have ended.
pub proof fn lemma_rerun_after_failure(
    platform: Platform,
    entries: Seq<Seq<char>>,
    disk: Disk,
    k: int,
)
    requires
        platform == Platform::Windows ==> lists_executables(
            entries,
            refresh_start(platform, disk),
        ),
        0 <= k < run_ops(platform, disk.version(), entries).len(),
    ensures
        migrated(platform, apply_ops(run_ops(platform, disk.version(), entries).take(k), disk))
            == migrated(platform, disk),
{
    reveal_with_fuel(steps_ops, 3);
    let ops = run_ops(platform, disk.version(), entries);
    let begun = ops.take(k);
    let left = apply_ops(begun, disk);
    let steps = steps_from(disk.version());
    let first = if disk.version() == 0 {
        bootstrap_ops(platform)
    } else {
        Seq::<FileOpView>::empty()
    };
    let save = FileOpView::SaveVersion { version: CURRENT_MIGRATION_VERSION as int };
    let refresh = match platform {
        Platform::Unix => Seq::<FileOpView>::empty(),
        Platform::Windows => refresh_ops(entries),
    };
    let unsaved = first + prepare_ops(platform) + refresh;
    if disk.version() == 0 {
        assert(steps.drop_last() =~= seq![MigrationStep::FromBasic]);
        assert(steps.drop_last().drop_last() =~= Seq::<MigrationStep>::empty());
    } else {
        assert(steps.drop_last() =~= Seq::<MigrationStep>::empty());
    }
    assert(ops =~= first + normalize_ops(platform, entries));
    assert(ops =~= unsaved.push(save));
    assert(saves_nothing(begun)) by {
        lemma_shims_save_nothing(platform, default_names());
        lemma_refresh_saves_nothing(entries);
        assert forall|i: int| 0 <= i < begun.len() implies !(#[trigger] begun[i] is SaveVersion) by {
            assert(begun[i] == unsaved[i]);
        }
    }
    lemma_version_kept(begun, disk);
    let again = migrated(platform, left).bin;
    let once = migrated(platform, disk).bin;
    assert forall|name: Seq<char>|
        #![trigger again.dom().contains(name)]
        #![trigger once.dom().contains(name)]
        #![trigger again[name]]
        #![trigger once[name]]
        again.dom().contains(name) == once.dom().contains(name) && (once.dom().contains(name)
            ==> again[name] == once[name]) by {
        lemma_footprint(begun, disk, name);
        if written(begun, name) {
            lemma_written_prefix(ops, k, name);
            lemma_written_concat(first, normalize_ops(platform, entries), name);
            lemma_written_concat(prepare_ops(platform), conclude_ops(platform, entries), name);
            lemma_prepare_written(platform, name);
            lemma_conclude_written(platform, entries, name);
            if disk.version() == 0 {
                lemma_bootstrap_written(platform, name);
            }
        }
    }
    assert(again =~= once);
}

/// Whether every listing among `events` is `entries`.
pub open spec fn listed_as(events: Seq<MigrationEventView>, entries: Seq<Seq<char>>) -> bool {
    forall|i: int|
        0 <= i < events.len() ==> (#[trigger] events[i] matches MigrationEventView::Listed(found)
            ==> found == entries)
}

/// Whether a run from schema version `version` that stands at `state`, or
/// failed there, has come as far as `at`: the batches before the one of
/// `state` are done, and that one was asked for last.
pub open spec fn shaped(
    at: Progress,
    state: MigrationState,
    platform: Platform,
    version: int,
    entries: Seq<Seq<char>>,
) -> bool {
    let first = if version == 0 {
        bootstrap_ops(platform)
    } else {
        Seq::<FileOpView>::empty()
    };
    match state {
        MigrationState::Bootstrapping => version == 0 && at.done == Seq::<FileOpView>::empty()
            && at.pending == bootstrap_ops(platform),
        MigrationState::Preparing => at.done == first && at.pending == prepare_ops(platform),
        MigrationState::Listing => at.done == first + prepare_ops(platform) && at.pending
            == Seq::<FileOpView>::empty(),
        MigrationState::Normalizing => at.done == first + prepare_ops(platform) && at.pending
            == conclude_ops(platform, listing_used(platform, entries)),
        _ => false,
    }
}

/// Whether a run on `platform` from schema version `version`, with the
/// listing `entries`, can have come as far as `at`.
pub open spec fn on_course(
    at: Progress,
    platform: Platform,
    version: int,
    entries: Seq<Seq<char>>,
) -> bool {
    &&& at.run.platform == platform
    &&& match at.run.state {
        MigrationState::Unknown => false,
        MigrationState::UpToDate => true,
        MigrationState::Failed => version < CURRENT_MIGRATION_VERSION && exists|
            state: MigrationState,
        | shaped(at, state, platform, version, entries),
        working => version < CURRENT_MIGRATION_VERSION && shaped(
            at,
            working,
            platform,
            version,
            entries,
        ),
    }
}

/// Once the marker is read, a run stays on its course whatever events
/// come in.
proof fn lemma_on_course(
    platform: Platform,
    marker: Option<Seq<char>>,
    entries: Seq<Seq<char>>,
    rest: Seq<MigrationEventView>,
)
    requires
        listed_as(rest, entries),
    ensures
        on_course(
            progress(platform, seq![MigrationEventView::MarkerRead(marker)] + rest),
            platform,
            schema_version_of(marker),
            entries,
        ),
    decreases rest.len(),
{
    let read = seq![MigrationEventView::MarkerRead(marker)];
    let version = schema_version_of(marker);
    let events = read + rest;
    let first = if version == 0 {
        bootstrap_ops(platform)
    } else {
        Seq::<FileOpView>::empty()
    };
    let none = Seq::<FileOpView>::empty();
    if rest.len() == 0 {
        assert(events =~= read);
        assert(read.drop_last() =~= Seq::<MigrationEventView>::empty());
        let at = progress(platform, events);
        assert(at.done =~= none);
        assert(first =~= none || version == 0);
    } else {
        assert(events.drop_last() =~= read + rest.drop_last());
        assert(events.last() == rest[rest.len() - 1]);
        assert forall|i: int| 0 <= i < rest.drop_last().len() implies (
        #[trigger] rest.drop_last()[i] matches MigrationEventView::Listed(found) ==> found
            == entries) by {
            assert(rest.drop_last()[i] == rest[i]);
        }
        lemma_on_course(platform, marker, entries, rest.drop_last());
        let before = progress(platform, events.drop_last());
        let at = progress(platform, events);
        if before.run.state == MigrationState::Failed {
            assert(at == before);
        } else if at.run.state == MigrationState::Failed {
            assert(shaped(at, before.run.state, platform, version, entries));
        } else {
            assert(before.done + none =~= before.done);
        }
    }
}

/// Whatever operation of a run fails, the run can be run again: where a
/// run has failed when the first `k` of the operations asked for last had
/// succeeded, a whole run on the state that was left behind ends where a
/// whole run on the state before would have ended. The listing, where
/// the run got that far, is taken to name the executables that there were.
pub proof fn lemma_failed_run_recovers(
    platform: Platform,
    marker: Option<Seq<char>>,
    entries: Seq<Seq<char>>,
    rest: Seq<MigrationEventView>,
    k: int,
    disk: Disk,
)
    requires
        listed_as(rest, entries),
        disk.marker == marker,
        platform == Platform::Windows ==> lists_executables(
            entries,
            refresh_start(platform, disk),
        ),
        progress(platform, seq![MigrationEventView::MarkerRead(marker)] + rest).run.state
            == MigrationState::Failed,
        0 <= k <= progress(
            platform,
            seq![MigrationEventView::MarkerRead(marker)] + rest,
        ).pending.len(),
        k < progress(platform, seq![MigrationEventView::MarkerRead(marker)] + rest).pending.len()
            || progress(
            platform,
            seq![MigrationEventView::MarkerRead(marker)] + rest,
        ).pending.len() == 0,
    ensures
        ({
            let at = progress(platform, seq![MigrationEventView::MarkerRead(marker)] + rest);
            migrated(platform, apply_ops(at.done + at.pending.take(k), disk)) == migrated(
                platform,
                disk,
            )
        }),
{
    reveal_with_fuel(steps_ops, 3);
    let at = progress(platform, seq![MigrationEventView::MarkerRead(marker)] + rest);
    let listed = listing_used(platform, entries);
    lemma_on_course(platform, marker, entries, rest);
    let state = choose|state: MigrationState| shaped(at, state, platform, disk.version(), entries);
    let ops = run_ops(platform, disk.version(), listed);
    let steps = steps_from(disk.version());
    let first = if disk.version() == 0 {
        bootstrap_ops(platform)
    } else {
        Seq::<FileOpView>::empty()
    };
    if disk.version() == 0 {
        assert(steps.drop_last() =~= seq![MigrationStep::FromBasic]);
        assert(steps.drop_last().drop_last() =~= Seq::<MigrationStep>::empty());
    } else {
        assert(steps.drop_last() =~= Seq::<MigrationStep>::empty());
    }
    assert(ops =~= first + prepare_ops(platform) + conclude_ops(platform, listed));
    let begun = at.done + at.pending.take(k);
    assert(begun =~= ops.take(begun.len() as int));
    match platform {
        Platform::Unix => {},
        Platform::Windows => {
            assert(listed == entries);
        },
    }
    lemma_rerun_after_failure(platform, listed, disk, begun.len() as int);
}

} // verus!
