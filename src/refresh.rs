use crate::snapshot::{Snapshot, SnapshotView};
use crate::store::SnapshotStore;
use std::sync::Arc;
use vstd::prelude::*;

verus! {

/// The shortest interval between two refreshes, so that the data source is
/// not asked too often.
pub const MINIMUM_UPDATER_INTERVAL_SECS: u64 = 3600;

/// The configured interval, raised to the minimum when it is shorter.
pub open spec fn floored_interval(requested: u64) -> u64 {
    if requested < MINIMUM_UPDATER_INTERVAL_SECS {
        MINIMUM_UPDATER_INTERVAL_SECS
    } else {
        requested
    }
}

/// The interval between refreshes for a configured `requested` number of
/// seconds.
pub fn refresh_interval_secs(requested: u64) -> (r: u64)
    ensures
        r == floored_interval(requested),
{
    if requested < MINIMUM_UPDATER_INTERVAL_SECS {
        MINIMUM_UPDATER_INTERVAL_SECS
    } else {
        requested
    }
}

/// Where the refresh task is in its cycle.
#[derive(Debug, Clone, Copy, PartialEq, Eq, Structural)]
pub enum RefreshPhase {
    /// Waiting for the interval to pass.
    Sleeping,
    /// Waiting for the loader's answer.
    Loading,
}

/// What the refresh task is told.
pub enum RefreshEvent {
    /// The interval has passed.
    Elapsed,
    /// The loader produced a new snapshot.
    Loaded(Snapshot),
    /// The loader failed with this code.
    LoadFailed(i32),
}

/// What the refresh task asks to be done next.
#[derive(Debug, Clone, Copy, PartialEq, Eq, Structural)]
pub enum RefreshAction {
    /// Sleep for this many seconds, then report `Elapsed`.
    Sleep(u64),
    /// Run the loader, then report `Loaded` or `LoadFailed`.
    Load,
}

/// The state of a refresh task.
pub ghost struct RefreshTaskView {
    pub interval_secs: u64,
    pub phase: RefreshPhase,
}

/// What the task asks for in a given state.
pub open spec fn action_for(t: RefreshTaskView) -> RefreshAction {
    match t.phase {
        RefreshPhase::Sleeping => RefreshAction::Sleep(t.interval_secs),
        RefreshPhase::Loading => RefreshAction::Load,
    }
}

/// One step of the refresh cycle, from the task's state, the store's content
/// and an event to the next state, the next content and the next action.
/// Sleeping, the end of the interval starts a load; loading, a new snapshot
/// is installed and a failure keeps the old one, and either way the task
/// goes back to sleep. An event that does not fit the phase changes nothing.
pub open spec fn refresh_step(task: RefreshTaskView, store: SnapshotView, event: RefreshEvent) -> (
    RefreshTaskView,
    SnapshotView,
    RefreshAction,
) {
    let sleeping = RefreshTaskView { phase: RefreshPhase::Sleeping, ..task };
    match (task.phase, event) {
        (RefreshPhase::Sleeping, RefreshEvent::Elapsed) => {
            let loading = RefreshTaskView { phase: RefreshPhase::Loading, ..task };
            (loading, store, RefreshAction::Load)
        },
        (RefreshPhase::Loading, RefreshEvent::Loaded(next)) => (
            sleeping,
            next@,
            RefreshAction::Sleep(task.interval_secs),
        ),
        (RefreshPhase::Loading, RefreshEvent::LoadFailed(_)) => (
            sleeping,
            store,
            RefreshAction::Sleep(task.interval_secs),
        ),
        _ => (task, store, action_for(task)),
    }
}

/// The refresh task's decisions: it never ends, and it only ever installs a
/// snapshot that the loader produced.
pub struct RefreshTask {
    interval_secs: u64,
    phase: RefreshPhase,
}

impl View for RefreshTask {
    type V = RefreshTaskView;

    closed spec fn view(&self) -> RefreshTaskView {
        RefreshTaskView { interval_secs: self.interval_secs, phase: self.phase }
    }
}

/// The result of one step: the next action, and the snapshot that an install
/// displaced, to be dropped once the store is no longer held.
pub struct RefreshStep {
    pub action: RefreshAction,
    pub displaced: Option<Arc<Snapshot>>,
}

impl RefreshTask {
    /// A task that starts asleep, with the configured interval floored.
    pub fn new(refresh_secs: u64) -> (t: RefreshTask)
        ensures
            t@.interval_secs == floored_interval(refresh_secs),
            t@.phase == RefreshPhase::Sleeping,
    {
        RefreshTask { interval_secs: refresh_interval_secs(refresh_secs), phase: RefreshPhase::Sleeping }
    }

    /// The interval between refreshes.
    pub fn interval_secs(&self) -> (r: u64)
        ensures
            r == self@.interval_secs,
    {
        self.interval_secs
    }

    /// What the task asks for now.
    pub fn next_action(&self) -> (r: RefreshAction)
        ensures
            r == action_for(self@),
    {
        match self.phase {
            RefreshPhase::Sleeping => RefreshAction::Sleep(self.interval_secs),
            RefreshPhase::Loading => RefreshAction::Load,
        }
    }

    /// Takes one step of the cycle on `event`, installing a loaded snapshot
    /// in `store`.
    pub fn step(&mut self, store: &mut SnapshotStore, event: RefreshEvent) -> (r: RefreshStep)
        ensures
            (final(self)@, final(store)@, r.action) == refresh_step(old(self)@, old(store)@, event),
            match r.displaced {
                Some(prev) => prev@ == old(store)@,
                None => final(store)@ == old(store)@,
            },
    {
        match (self.phase, event) {
            (RefreshPhase::Sleeping, RefreshEvent::Elapsed) => {
                self.phase = RefreshPhase::Loading;
                RefreshStep { action: RefreshAction::Load, displaced: None }
            },
            (RefreshPhase::Loading, RefreshEvent::Loaded(next)) => {
                let prev = store.replace(next);
                self.phase = RefreshPhase::Sleeping;
                RefreshStep { action: RefreshAction::Sleep(self.interval_secs), displaced: Some(prev) }
            },
            (RefreshPhase::Loading, RefreshEvent::LoadFailed(_)) => {
                self.phase = RefreshPhase::Sleeping;
                RefreshStep { action: RefreshAction::Sleep(self.interval_secs), displaced: None }
            },
            _ => RefreshStep { action: self.next_action(), displaced: None },
        }
    }
}

/// Refresh resilience: a cycle in which the interval passes and the loader
/// then fails leaves the store's records and timestamp as they were, and the
/// task asleep again for another interval, ready for the next cycle.
pub proof fn lemma_failed_cycle_keeps_store(task: RefreshTaskView, store: SnapshotView, code: i32)
    requires
        task.phase == RefreshPhase::Sleeping,
    ensures
        ({
            let (t1, s1, a1) = refresh_step(task, store, RefreshEvent::Elapsed);
            let (t2, s2, a2) = refresh_step(t1, s1, RefreshEvent::LoadFailed(code));
            &&& a1 == RefreshAction::Load
            &&& s2 == store
            &&& t2 == task
            &&& a2 == RefreshAction::Sleep(task.interval_secs)
        }),
{
}

} // verus!
