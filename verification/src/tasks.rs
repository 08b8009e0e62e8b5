//! State machines of the permanently running activities that are not the
//! echo service: the status indicator that toggles one output on a fixed
//! rhythm, and the watcher that turns a falling edge on the update-request
//! input into a persisted update request.
//!
//! Each task owns its peripheral for the whole device lifetime and suspends
//! only at its one wait point (the timer, the next edge); the driver loop
//! performs the waiting and the pin writes, the machines here decide.

use vstd::prelude::*;

use crate::boot_store::BootMode;
use crate::boot_store::BootModeStore;
use crate::boot_store::store_write;
use crate::boot_store::store_write_ok;

verus! {

/// Milliseconds the status output is held high in each cycle.
pub const STATUS_HIGH_MS: u64 = 200;

/// Milliseconds the status output is held low in each cycle.
pub const STATUS_LOW_MS: u64 = 1000;

/// Level of the status output.
#[derive(Clone, Copy, PartialEq, Eq, Structural, Debug)]
pub enum IndicatorLevel {
    High,
    Low,
}

/// The other level.
pub open spec fn opposite(l: IndicatorLevel) -> IndicatorLevel {
    match l {
        IndicatorLevel::High => IndicatorLevel::Low,
        IndicatorLevel::Low => IndicatorLevel::High,
    }
}

/// Status indicator: holds the output high for `high_ms`, low for `low_ms`,
/// forever. No terminal state, no shared-resource contact.
pub struct StatusIndicator {
    /// Level the output shows now.
    pub level: IndicatorLevel,
    /// Hold time of the high phase, in milliseconds.
    pub high_ms: u64,
    /// Hold time of the low phase, in milliseconds.
    pub low_ms: u64,
}

impl StatusIndicator {
    /// How long the current level is held before the next toggle.
    pub open spec fn spec_hold_ms(&self) -> u64 {
        match self.level {
            IndicatorLevel::High => self.high_ms,
            IndicatorLevel::Low => self.low_ms,
        }
    }

    /// A new indicator; the output starts high, as the pin is driven at
    /// power-up.
    pub fn new(high_ms: u64, low_ms: u64) -> (r: Self)
        ensures
            r.level is High,
            r.high_ms == high_ms,
            r.low_ms == low_ms,
    {
        StatusIndicator { level: IndicatorLevel::High, high_ms, low_ms }
    }

    /// How long to hold the current level before calling `toggle`.
    pub fn hold_ms(&self) -> (ms: u64)
        ensures
            ms == self.spec_hold_ms(),
    {
        match self.level {
            IndicatorLevel::High => self.high_ms,
            IndicatorLevel::Low => self.low_ms,
        }
    }

    /// One timer tick: the level flips — two consecutive phases never show
    /// the same level — and the new level's hold time is returned.
    pub fn toggle(&mut self) -> (ms: u64)
        ensures
            final(self).level == opposite(old(self).level),
            final(self).high_ms == old(self).high_ms,
            final(self).low_ms == old(self).low_ms,
            ms == final(self).spec_hold_ms(),
    {
        self.level = match self.level {
            IndicatorLevel::High => IndicatorLevel::Low,
            IndicatorLevel::Low => IndicatorLevel::High,
        };
        self.hold_ms()
    }
}

/// Where the update-trigger watcher stands: waiting for the next falling
/// edge, or persisting the request it just saw.
#[derive(Clone, Copy, PartialEq, Eq, Structural, Debug)]
pub enum WatcherState {
    Idle,
    RequestingUpdate,
}

/// Watches the physical update-request input. On each falling edge it asks
/// the store to persist `DfuRequested`; a failure is non-fatal — the trigger
/// is lost for this edge, the device keeps running, and the next edge
/// retries. Its only suspension point is the wait for the next edge, taken
/// by the driver loop between calls.
pub struct UpdateTriggerWatcher {
    state: WatcherState,
}

impl UpdateTriggerWatcher {
    /// Where the watcher stands; `Idle` between edges.
    pub closed spec fn state(&self) -> WatcherState {
        self.state
    }

    /// A new watcher, waiting for the first edge.
    pub fn new() -> (r: Self)
        ensures
            r.state() is Idle,
    {
        UpdateTriggerWatcher { state: WatcherState::Idle }
    }

    /// Handles one falling edge: persists the update request through the
    /// store's guarded write and returns to waiting. `recorded` says whether
    /// the request reached the record; when it did not, nothing else changes
    /// and the next edge retries.
    pub fn on_edge(&mut self, store: &mut BootModeStore) -> (recorded: bool)
        requires
            old(self).state() is Idle,
            old(store).wf(),
        ensures
            final(self).state() is Idle,
            final(store).wf(),
            final(store).region() == store_write(old(store).region(), BootMode::DfuRequested),
            recorded <==> store_write_ok(old(store).region(), BootMode::DfuRequested),
    {
        self.state = WatcherState::RequestingUpdate;
        let written = store.write(BootMode::DfuRequested);
        self.state = WatcherState::Idle;
        written.is_ok()
    }
}

} // verus!
