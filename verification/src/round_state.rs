//! The shared consensus position: current step, round number, block height.

use vstd::prelude::*;

use crate::step::Step;

verus! {

/// Mathematical model of a [`RoundState`]: the (step, round, height) tuple
/// with unbounded counters.
pub struct RoundStateModel {
    pub step: Step,
    pub round: int,
    pub height: int,
}

/// The consensus position being agreed upon: the current step of the round,
/// the round counter (scoped to a height, reset to zero on a height change)
/// and the block height.
///
/// `set_step` is the only way the step changes; the counters move only
/// through their increment/reset methods, so round is monotone within a
/// height and height never decreases.
pub struct RoundState {
    step: Step,
    round: u64,
    height: u64,
}

impl View for RoundState {
    type V = RoundStateModel;

    closed spec fn view(&self) -> RoundStateModel {
        RoundStateModel { step: self.step, round: self.round as int, height: self.height as int }
    }
}

impl RoundState {
    /// Starts from whatever position the surrounding engine supplies.
    pub fn new(step: Step, round: u64, height: u64) -> (s: Self)
        ensures
            s@ == (RoundStateModel { step, round: round as int, height: height as int }),
    {
        RoundState { step, round, height }
    }

    /// Non-blocking read of the current step.
    pub fn current_step(&self) -> (r: Step)
        ensures
            r == self@.step,
    {
        self.step
    }

    /// The only writer of the step; leaves both counters alone.
    pub fn set_step(&mut self, step: Step)
        ensures
            final(self)@ == (RoundStateModel { step, ..old(self)@ }),
    {
        self.step = step;
    }

    /// The current round within this height.
    pub fn round(&self) -> (r: u64)
        ensures
            r as int == self@.round,
    {
        self.round
    }

    /// One more attempt at the same height.
    pub fn increment_round(&mut self)
        requires
            old(self)@.round < u64::MAX,
        ensures
            final(self)@ == (RoundStateModel { round: old(self)@.round + 1, ..old(self)@ }),
    {
        self.round = self.round + 1;
    }

    /// Back to the first round, as a height change demands.
    pub fn reset_round(&mut self)
        ensures
            final(self)@ == (RoundStateModel { round: 0, ..old(self)@ }),
    {
        self.round = 0;
    }

    /// The block height currently being agreed upon.
    pub fn height(&self) -> (r: u64)
        ensures
            r as int == self@.height,
    {
        self.height
    }

    /// The next block: height grows by exactly one.
    pub fn increment_height(&mut self)
        requires
            old(self)@.height < u64::MAX,
        ensures
            final(self)@ == (RoundStateModel { height: old(self)@.height + 1, ..old(self)@ }),
    {
        self.height = self.height + 1;
    }
}

} // verus!
