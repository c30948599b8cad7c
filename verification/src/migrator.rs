//! A migration run, move by move: what to do next, given what came of the
//! last thing done.

use crate::migrate::{
    bootstrap_ops, conclude, conclude_ops, get_schema_version, prepare, prepare_ops,
    schema_version_of, steps_from, update_schema, update_schema_from_basic, FileOp, FileOpView,
    MigrationStep, Platform,
};
use vstd::prelude::*;

verus! {

/// Name of the event that tells the window of a failed migration.
pub const MIGRATION_ERROR_EVENT: &'static str = "app-migration-error";

/// Seconds to wait before that event is sent, so that the window is there
/// to receive it.
pub const MIGRATION_ERROR_DELAY_SECS: u64 = 1;

/// Where a migration run stands.
#[derive(Debug, Clone, Copy, PartialEq, Eq, Structural)]
pub enum MigrationState {
    /// The marker has not been read yet.
    Unknown,
    /// The marker stood at 0, and the fresh install is under way.
    Bootstrapping,
    /// The first operations of the refresh are under way.
    Preparing,
    /// The directory of the launcher shims is being listed.
    Listing,
    /// The last operations of the refresh are under way.
    Normalizing,
    /// The persisted state is at the current schema version, or beyond.
    UpToDate,
    /// An operation failed. The marker is as it was found.
    Failed,
}

/// A migration run: the platform it lays out shims for, and where it
/// stands.
#[derive(Debug, Clone, Copy, PartialEq, Eq, Structural)]
pub struct MigrationRun {
    pub platform: Platform,
    pub state: MigrationState,
}

/// What came of the action that a migration run asked for last.
#[derive(Debug, PartialEq, Eq)]
pub enum MigrationEvent {
    /// The marker file was read and held this text; `None` where it could
    /// not be read.
    MarkerRead(Option<String>),
    /// The directory of the launcher shims was listed and holds these
    /// names.
    Listed(Vec<String>),
    /// All operations asked for succeeded.
    Completed,
    /// An operation, or the listing, failed.
    Failed,
}

/// The mathematical content of a [`MigrationEvent`].
pub ghost enum MigrationEventView {
    MarkerRead(Option<Seq<char>>),
    Listed(Seq<Seq<char>>),
    Completed,
    Failed,
}

impl DeepView for MigrationEvent {
    type V = MigrationEventView;

    open spec fn deep_view(&self) -> MigrationEventView {
        match *self {
            MigrationEvent::MarkerRead(marker) => MigrationEventView::MarkerRead(
                marker.deep_view(),
            ),
            MigrationEvent::Listed(entries) => MigrationEventView::Listed(entries.deep_view()),
            MigrationEvent::Completed => MigrationEventView::Completed,
            MigrationEvent::Failed => MigrationEventView::Failed,
        }
    }
}

impl View for MigrationEvent {
    type V = MigrationEventView;

    open spec fn view(&self) -> MigrationEventView {
        self.deep_view()
    }
}

/// What a migration run asks its caller to do next.
#[derive(Debug, PartialEq, Eq)]
pub enum MigrationAction {
    /// Read the marker file as text.
    ReadMarker,
    /// Perform `ops` in order, and stop at the first that fails.
    Run { ops: Vec<FileOp> },
    /// List the names in the directory of the launcher shims.
    List,
    /// Nothing: the persisted state is up to date.
    Rest,
    /// Log the failure; then wait for `delay_secs` seconds and send the
    /// event named `event` to the window if there is one.
    Report { event: String, delay_secs: u64 },
    /// Nothing: the event was not awaited, and nothing has changed.
    Ignored,
}

/// The mathematical content of a [`MigrationAction`].
pub ghost enum MigrationActionView {
    ReadMarker,
    Run { ops: Seq<FileOpView> },
    List,
    Rest,
    Report { event: Seq<char>, delay_secs: int },
    Ignored,
}

impl DeepView for MigrationAction {
    type V = MigrationActionView;

    open spec fn deep_view(&self) -> MigrationActionView {
        match *self {
            MigrationAction::ReadMarker => MigrationActionView::ReadMarker,
            MigrationAction::Run { ops } => MigrationActionView::Run { ops: ops.deep_view() },
            MigrationAction::List => MigrationActionView::List,
            MigrationAction::Rest => MigrationActionView::Rest,
            MigrationAction::Report { event, delay_secs } => MigrationActionView::Report {
                event: event@,
                delay_secs: delay_secs as int,
            },
            MigrationAction::Ignored => MigrationActionView::Ignored,
        }
    }
}

impl View for MigrationAction {
    type V = MigrationActionView;

    open spec fn view(&self) -> MigrationActionView {
        self.deep_view()
    }
}

/// One move of a migration run: where it stands then, and what it asks
/// for.
pub ghost struct MigrationMove {
    pub run: MigrationRun,
    pub action: MigrationActionView,
}

/// What a run asks for when an operation has failed: to tell the window,
/// after a delay that lets the window come up first.
pub open spec fn failure_report() -> MigrationActionView {
    MigrationActionView::Report {
        event: MIGRATION_ERROR_EVENT@,
        delay_secs: MIGRATION_ERROR_DELAY_SECS as int,
    }
}

/// The move that begins the refresh.
pub open spec fn begin_refresh(platform: Platform) -> MigrationMove {
    MigrationMove {
        run: MigrationRun { platform, state: MigrationState::Preparing },
        action: MigrationActionView::Run { ops: prepare_ops(platform) },
    }
}

/// The move that a migration run makes when it stands at `run` and `event`
/// comes in.
pub open spec fn migration_next(run: MigrationRun, event: MigrationEventView) -> MigrationMove {
    let platform = run.platform;
    match (run.state, event) {
        (MigrationState::Unknown, MigrationEventView::MarkerRead(marker)) => {
            let steps = steps_from(schema_version_of(marker));
            if steps.len() == 0 {
                MigrationMove {
                    run: MigrationRun { platform, state: MigrationState::UpToDate },
                    action: MigrationActionView::Rest,
                }
            } else if steps[0] == MigrationStep::FromBasic {
                MigrationMove {
                    run: MigrationRun { platform, state: MigrationState::Bootstrapping },
                    action: MigrationActionView::Run { ops: bootstrap_ops(platform) },
                }
            } else {
                begin_refresh(platform)
            }
        },
        (MigrationState::Bootstrapping, MigrationEventView::Completed) => begin_refresh(platform),
        (MigrationState::Preparing, MigrationEventView::Completed) => match platform {
            Platform::Unix => MigrationMove {
                run: MigrationRun { platform, state: MigrationState::Normalizing },
                action: MigrationActionView::Run { ops: conclude_ops(platform, Seq::empty()) },
            },
            Platform::Windows => MigrationMove {
                run: MigrationRun { platform, state: MigrationState::Listing },
                action: MigrationActionView::List,
            },
        },
        (MigrationState::Listing, MigrationEventView::Listed(entries)) => MigrationMove {
            run: MigrationRun { platform, state: MigrationState::Normalizing },
            action: MigrationActionView::Run { ops: conclude_ops(platform, entries) },
        },
        (MigrationState::Normalizing, MigrationEventView::Completed) => MigrationMove {
            run: MigrationRun { platform, state: MigrationState::UpToDate },
            action: MigrationActionView::Rest,
        },
        (MigrationState::Bootstrapping, MigrationEventView::Failed)
        | (MigrationState::Preparing, MigrationEventView::Failed)
        | (MigrationState::Listing, MigrationEventView::Failed)
        | (MigrationState::Normalizing, MigrationEventView::Failed) => MigrationMove {
            run: MigrationRun { platform, state: MigrationState::Failed },
            action: failure_report(),
        },
        _ => MigrationMove { run, action: MigrationActionView::Ignored },
    }
}

/// Begins a migration run on `platform`: the marker is unknown, and the
/// first thing asked for is to read it.
pub fn init(platform: Platform) -> (begin: (MigrationRun, MigrationAction))
    ensures
        begin.0 == (MigrationRun { platform, state: MigrationState::Unknown }),
        begin.1@ == MigrationActionView::ReadMarker,
{
    (MigrationRun { platform, state: MigrationState::Unknown }, MigrationAction::ReadMarker)
}

impl MigrationRun {
    /// Begins the refresh.
    fn refresh(platform: Platform) -> (step: (MigrationRun, MigrationAction))
        ensures
            step.0 == begin_refresh(platform).run,
            step.1@ == begin_refresh(platform).action,
    {
        (
            MigrationRun { platform, state: MigrationState::Preparing },
            MigrationAction::Run { ops: prepare(platform) },
        )
    }

    /// Makes the move that `event` calls for: says where the run stands
    /// then and what to do next.
    pub fn step(self, event: MigrationEvent) -> (step: (MigrationRun, MigrationAction))
        ensures
            step.0 == migration_next(self, event@).run,
            step.1@ == migration_next(self, event@).action,
    {
        let platform = self.platform;
        match (self.state, event) {
            (MigrationState::Unknown, MigrationEvent::MarkerRead(marker)) => {
                let version = match &marker {
                    Some(text) => get_schema_version(Some(text.as_str())),
                    None => get_schema_version(None),
                };
                let steps = update_schema(version);
                if steps.len() == 0 {
                    (
                        MigrationRun { platform, state: MigrationState::UpToDate },
                        MigrationAction::Rest,
                    )
                } else if steps[0] == MigrationStep::FromBasic {
                    (
                        MigrationRun { platform, state: MigrationState::Bootstrapping },
                        MigrationAction::Run { ops: update_schema_from_basic(platform) },
                    )
                } else {
                    MigrationRun::refresh(platform)
                }
            },
            (MigrationState::Bootstrapping, MigrationEvent::Completed) => MigrationRun::refresh(
                platform,
            ),
            (MigrationState::Preparing, MigrationEvent::Completed) => match platform {
                Platform::Unix => {
                    let none: Vec<String> = Vec::new();
                    assert(none.deep_view() =~= Seq::<Seq<char>>::empty());
                    (
                        MigrationRun { platform, state: MigrationState::Normalizing },
                        MigrationAction::Run { ops: conclude(platform, &none) },
                    )
                },
                Platform::Windows => (
                    MigrationRun { platform, state: MigrationState::Listing },
                    MigrationAction::List,
                ),
            },
            (MigrationState::Listing, MigrationEvent::Listed(entries)) => (
                MigrationRun { platform, state: MigrationState::Normalizing },
                MigrationAction::Run { ops: conclude(platform, &entries) },
            ),
            (MigrationState::Normalizing, MigrationEvent::Completed) => (
                MigrationRun { platform, state: MigrationState::UpToDate },
                MigrationAction::Rest,
            ),
            (MigrationState::Bootstrapping, MigrationEvent::Failed)
            | (MigrationState::Preparing, MigrationEvent::Failed)
            | (MigrationState::Listing, MigrationEvent::Failed)
            | (MigrationState::Normalizing, MigrationEvent::Failed) => (
                MigrationRun { platform, state: MigrationState::Failed },
                MigrationAction::Report {
                    event: MIGRATION_ERROR_EVENT.to_owned(),
                    delay_secs: MIGRATION_ERROR_DELAY_SECS,
                },
            ),
            _ => (self, MigrationAction::Ignored),
        }
    }
}

} // verus!
