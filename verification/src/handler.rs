//! The step transition engine: turns timer expiry and reset signals into
//! step transitions and a re-armed timer.

use vstd::prelude::*;

use crate::round_state::{RoundState, RoundStateModel};
use crate::step::Step;
use crate::timeouts::TendermintTimeouts;
use crate::timer::{TimerSlot, ENGINE_TIMEOUT_TOKEN};

verus! {

/// The parameter-less reset notification, raised whenever step, round or
/// height were changed by a path other than timer expiry.
#[derive(Clone)]
pub struct NextStep;

/// The transition table, evaluated only at timer expiry: the position after
/// an expiry observed in position `s` with quorum signal `quorum`.
///
/// `Propose` always advances to `Prevote`; `Prevote` and `Precommit` advance
/// only on quorum (`Precommit` retrying the height with the next round);
/// `Commit` completes the height, entering `Propose` at round zero of the
/// next height regardless of quorum.
pub open spec fn next_state(s: RoundStateModel, quorum: bool) -> RoundStateModel {
    match s.step {
        Step::Propose => RoundStateModel { step: Step::Prevote, ..s },
        Step::Prevote => if quorum {
            RoundStateModel { step: Step::Precommit, ..s }
        } else {
            s
        },
        Step::Precommit => if quorum {
            RoundStateModel { step: Step::Propose, round: s.round + 1, ..s }
        } else {
            s
        },
        Step::Commit => RoundStateModel { step: Step::Propose, round: 0, height: s.height + 1 },
    }
}

/// What an expiry observed in step `step` leaves in the timer slot: the new
/// step's duration on every transition row, nothing on a "no transition" row
/// (the expiry consumed the deadline and liveness then depends on an external
/// reset signal).
pub open spec fn rearm_duration(t: TendermintTimeouts, step: Step, quorum: bool) -> Option<u64> {
    match step {
        Step::Propose => Some(t.prevote),
        Step::Prevote => if quorum {
            Some(t.precommit)
        } else {
            None
        },
        Step::Precommit => if quorum {
            Some(t.propose)
        } else {
            None
        },
        Step::Commit => Some(t.propose),
    }
}

/// The timeout state machine: the consensus position, the immutable timeout
/// policy, and the single logical timer slot.
///
/// The surrounding engine owns a handler behind its own synchronization and
/// resolves a weak reference before every entry point; the machine itself is
/// synchronous and bounded. Entry points report the duration (ms) to arm on
/// the real timer port so the caller can mirror the slot onto it.
pub struct TimerHandler {
    state: RoundState,
    timeouts: TendermintTimeouts,
    timer: TimerSlot,
}

/// Mathematical model of a [`TimerHandler`].
pub struct TimerHandlerModel {
    pub state: RoundStateModel,
    pub timeouts: TendermintTimeouts,
    pub timer: Option<u64>,
}

impl View for TimerHandler {
    type V = TimerHandlerModel;

    closed spec fn view(&self) -> TimerHandlerModel {
        TimerHandlerModel { state: self.state@, timeouts: self.timeouts, timer: self.timer@ }
    }
}

impl TimerHandler {
    /// Well-formedness: the timeout policy was validated at construction.
    pub open spec fn wf(&self) -> bool {
        self@.timeouts.wf()
    }

    /// A machine over the position the engine supplied, with nothing
    /// scheduled yet; `initialize` arms the first deadline.
    pub fn new(state: RoundState, timeouts: TendermintTimeouts) -> (h: Self)
        requires
            timeouts.wf(),
        ensures
            h.wf(),
            h@.state == state@,
            h@.timeouts == timeouts,
            h@.timer is None,
    {
        TimerHandler { state, timeouts, timer: TimerSlot::new() }
    }

    /// On engine start: arm the timer once with the `Propose` duration,
    /// leaving the position as supplied. Returns the duration to arm on the
    /// real timer port.
    pub fn initialize(&mut self) -> (d: u64)
        requires
            old(self).wf(),
        ensures
            final(self).wf(),
            final(self)@.state == old(self)@.state,
            final(self)@.timeouts == old(self)@.timeouts,
            d == old(self)@.timeouts.propose,
            final(self)@.timer == Some(d),
    {
        let d: u64 = self.timeouts.propose;
        self.timer.schedule_once(d);
        d
    }

    /// Timer expiry. A callback for any other token is ignored outright. For
    /// the machine's own token, the position moves along [`next_state`] under
    /// the quorum signal sampled at this instant, and the slot is left as
    /// [`rearm_duration`] says: armed with the new step's duration on a
    /// transition, consumed and unarmed on a "no transition" row. Returns the
    /// duration to arm on the real timer port, if any.
    pub fn timeout(&mut self, token: usize, quorum: bool) -> (r: Option<u64>)
        requires
            old(self).wf(),
            old(self)@.state.round < u64::MAX,
            old(self)@.state.height < u64::MAX,
        ensures
            final(self).wf(),
            final(self)@.timeouts == old(self)@.timeouts,
            token != ENGINE_TIMEOUT_TOKEN ==> final(self)@ == old(self)@ && r is None,
            token == ENGINE_TIMEOUT_TOKEN ==> final(self)@.state == next_state(
                old(self)@.state,
                quorum,
            ),
            token == ENGINE_TIMEOUT_TOKEN ==> final(self)@.timer == rearm_duration(
                old(self)@.timeouts,
                old(self)@.state.step,
                quorum,
            ),
            token == ENGINE_TIMEOUT_TOKEN ==> r == final(self)@.timer,
    {
        if token != ENGINE_TIMEOUT_TOKEN {
            return None;
        }
        // The expiry consumed the pending deadline; transition rows re-arm
        // below, "no transition" rows leave the slot empty.
        self.timer.cancel();
        match self.state.current_step() {
            Step::Propose => {
                self.state.set_step(Step::Prevote);
                let d: u64 = self.timeouts.prevote;
                self.timer.schedule_once(d);
                Some(d)
            },
            Step::Prevote => {
                if quorum {
                    self.state.set_step(Step::Precommit);
                    let d: u64 = self.timeouts.precommit;
                    self.timer.schedule_once(d);
                    Some(d)
                } else {
                    None
                }
            },
            Step::Precommit => {
                if quorum {
                    self.state.increment_round();
                    self.state.set_step(Step::Propose);
                    let d: u64 = self.timeouts.propose;
                    self.timer.schedule_once(d);
                    Some(d)
                } else {
                    None
                }
            },
            Step::Commit => {
                self.state.reset_round();
                self.state.increment_height();
                self.state.set_step(Step::Propose);
                let d: u64 = self.timeouts.propose;
                self.timer.schedule_once(d);
                Some(d)
            },
        }
    }

    /// External reset signal: the position was changed by a path other than
    /// timer expiry, so cancel whatever was pending and re-arm for the
    /// current step, read fresh. The position itself is untouched and no
    /// quorum signal is consulted. Returns the duration to arm on the real
    /// timer port; exactly one deadline is pending afterwards, matching
    /// `for_step` of the current step.
    pub fn message(&mut self, _msg: &NextStep) -> (d: u64)
        requires
            old(self).wf(),
        ensures
            final(self).wf(),
            final(self)@.state == old(self)@.state,
            final(self)@.timeouts == old(self)@.timeouts,
            d == old(self)@.timeouts.spec_for_step(old(self)@.state.step),
            final(self)@.timer == Some(d),
    {
        self.timer.cancel();
        let step: Step = self.state.current_step();
        let d: u64 = self.timeouts.for_step(step);
        self.timer.schedule_once(d);
        d
    }

    /// Non-blocking read of the current step.
    pub fn current_step(&self) -> (r: Step)
        ensures
            r == self@.state.step,
    {
        self.state.current_step()
    }

    /// The current round within this height.
    pub fn round(&self) -> (r: u64)
        ensures
            r as int == self@.state.round,
    {
        self.state.round()
    }

    /// The block height currently being agreed upon.
    pub fn height(&self) -> (r: u64)
        ensures
            r as int == self@.state.height,
    {
        self.state.height()
    }

    /// The pending duration, if the timer slot is armed.
    pub fn armed_timer(&self) -> (r: Option<u64>)
        ensures
            r == self@.timer,
    {
        self.timer.armed_duration()
    }
}

/// An expiry in `Propose` always advances to `Prevote` and leaves round and
/// height unchanged, whatever the quorum signal says.
pub proof fn lemma_propose_expiry(s: RoundStateModel, quorum: bool)
    requires
        s.step == Step::Propose,
    ensures
        next_state(s, quorum).step == Step::Prevote,
        next_state(s, quorum).round == s.round,
        next_state(s, quorum).height == s.height,
{
}

/// An expiry in `Prevote` advances to `Precommit` exactly on quorum, leaving
/// the counters unchanged; without quorum the position does not move and no
/// new timer is armed.
pub proof fn lemma_prevote_expiry(s: RoundStateModel, t: TendermintTimeouts)
    requires
        s.step == Step::Prevote,
    ensures
        next_state(s, true).step == Step::Precommit,
        next_state(s, true).round == s.round,
        next_state(s, true).height == s.height,
        next_state(s, false) == s,
        rearm_duration(t, s.step, false) is None,
{
}

/// An expiry in `Precommit` with quorum retries the height: back to
/// `Propose` with the round one higher and the height unchanged; without
/// quorum the position does not move and no new timer is armed.
pub proof fn lemma_precommit_expiry(s: RoundStateModel, t: TendermintTimeouts)
    requires
        s.step == Step::Precommit,
    ensures
        next_state(s, true).step == Step::Propose,
        next_state(s, true).round == s.round + 1,
        next_state(s, true).height == s.height,
        next_state(s, false) == s,
        rearm_duration(t, s.step, false) is None,
{
}

/// An expiry in `Commit` completes the height regardless of quorum: back to
/// `Propose` at round zero of the next height.
pub proof fn lemma_commit_expiry(s: RoundStateModel, quorum: bool)
    requires
        s.step == Step::Commit,
    ensures
        next_state(s, quorum).step == Step::Propose,
        next_state(s, quorum).round == 0,
        next_state(s, quorum).height == s.height + 1,
{
}

/// Height never decreases across an expiry, and it grows (by exactly one)
/// precisely when the `Commit` step completes.
pub proof fn lemma_height_monotone(s: RoundStateModel, quorum: bool)
    ensures
        next_state(s, quorum).height >= s.height,
        next_state(s, quorum).height == s.height + 1 <==> s.step == Step::Commit,
        s.step != Step::Commit ==> next_state(s, quorum).height == s.height,
{
}

/// Within a height the round never decreases; it resets to zero exactly when
/// the height changes.
pub proof fn lemma_round_monotone_within_height(s: RoundStateModel, quorum: bool)
    ensures
        next_state(s, quorum).height == s.height ==> next_state(s, quorum).round >= s.round,
        next_state(s, quorum).height != s.height ==> next_state(s, quorum).round == 0,
{
}

/// Whenever an expiry re-arms the timer, the chosen duration is exactly the
/// policy's entry for the step being entered; and the timer is left unarmed
/// precisely on the rows where the position does not move.
pub proof fn lemma_rearm_matches_new_step(t: TendermintTimeouts, s: RoundStateModel, quorum: bool)
    ensures
        rearm_duration(t, s.step, quorum) matches Some(d) ==> d == t.spec_for_step(
            next_state(s, quorum).step,
        ),
        rearm_duration(t, s.step, quorum) is None <==> next_state(s, quorum) == s,
{
}

} // verus!
