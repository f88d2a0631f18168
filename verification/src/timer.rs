//! The single-slot timer discipline: at most one outstanding deadline.

use vstd::prelude::*;

verus! {

/// Timer token representing the consensus step timeouts.
pub const ENGINE_TIMEOUT_TOKEN: usize = 23;

/// The machine's view of its one logical timer slot: either unarmed, or armed
/// with the duration (in ms) it was scheduled for.
///
/// Scheduling replaces whatever was pending (cancel-and-reschedule), so at
/// most one deadline is ever outstanding. Cancelling an unarmed slot is a
/// benign no-op, never an error: `cancel` is total and asks nothing of the
/// slot's prior state, so any number of consecutive cancels is permitted.
pub struct TimerSlot {
    armed: Option<u64>,
}

impl View for TimerSlot {
    type V = Option<u64>;

    closed spec fn view(&self) -> Option<u64> {
        self.armed
    }
}

impl TimerSlot {
    /// A fresh slot with nothing scheduled.
    pub fn new() -> (s: Self)
        ensures
            s@ is None,
    {
        TimerSlot { armed: None }
    }

    /// Discards any pending deadline. Total: on an unarmed slot this is a
    /// no-op, so a second cancel in a row is always allowed.
    pub fn cancel(&mut self)
        ensures
            final(self)@ is None,
    {
        self.armed = None;
    }

    /// Arms the slot for `duration_ms`, replacing any pending deadline.
    pub fn schedule_once(&mut self, duration_ms: u64)
        requires
            duration_ms > 0,
        ensures
            final(self)@ == Some(duration_ms),
    {
        self.armed = Some(duration_ms);
    }

    /// The pending duration, if the slot is armed.
    pub fn armed_duration(&self) -> (r: Option<u64>)
        ensures
            r == self@,
    {
        self.armed
    }
}

} // verus!
