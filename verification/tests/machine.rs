use tendermint_timeout::handler::{NextStep, TimerHandler};
use tendermint_timeout::round_state::RoundState;
use tendermint_timeout::step::Step;
use tendermint_timeout::timeouts::TendermintTimeouts;
use tendermint_timeout::timer::{TimerSlot, ENGINE_TIMEOUT_TOKEN};

fn handler_at(step: Step, round: u64, height: u64) -> TimerHandler {
    let timeouts = TendermintTimeouts::new(100, 200, 300, 400).unwrap();
    TimerHandler::new(RoundState::new(step, round, height), timeouts)
}

#[test]
fn initialize_arms_propose_duration() {
    let mut h = handler_at(Step::Propose, 0, 5);
    assert_eq!(h.armed_timer(), None);
    let d = h.initialize();
    assert_eq!(d, 100);
    assert_eq!(h.armed_timer(), Some(100));
    assert_eq!(h.current_step(), Step::Propose);
    assert_eq!(h.round(), 0);
    assert_eq!(h.height(), 5);
}

#[test]
fn propose_expiry_advances_to_prevote() {
    let mut h = handler_at(Step::Propose, 0, 5);
    h.initialize();
    let r = h.timeout(ENGINE_TIMEOUT_TOKEN, false);
    assert_eq!(h.current_step(), Step::Prevote);
    assert_eq!(h.round(), 0);
    assert_eq!(h.height(), 5);
    assert_eq!(r, Some(200));
    assert_eq!(h.armed_timer(), Some(200));
}

#[test]
fn propose_expiry_ignores_quorum_signal() {
    let mut h = handler_at(Step::Propose, 3, 9);
    h.initialize();
    let r = h.timeout(ENGINE_TIMEOUT_TOKEN, true);
    assert_eq!(h.current_step(), Step::Prevote);
    assert_eq!(h.round(), 3);
    assert_eq!(h.height(), 9);
    assert_eq!(r, Some(200));
}

#[test]
fn prevote_expiry_with_quorum_advances_to_precommit() {
    let mut h = handler_at(Step::Prevote, 0, 5);
    h.initialize();
    let r = h.timeout(ENGINE_TIMEOUT_TOKEN, true);
    assert_eq!(h.current_step(), Step::Precommit);
    assert_eq!(h.round(), 0);
    assert_eq!(h.height(), 5);
    assert_eq!(r, Some(300));
    assert_eq!(h.armed_timer(), Some(300));
}

#[test]
fn prevote_expiry_without_quorum_stalls_unarmed() {
    let mut h = handler_at(Step::Prevote, 0, 5);
    h.initialize();
    let r = h.timeout(ENGINE_TIMEOUT_TOKEN, false);
    assert_eq!(h.current_step(), Step::Prevote);
    assert_eq!(h.round(), 0);
    assert_eq!(h.height(), 5);
    assert_eq!(r, None);
    assert_eq!(h.armed_timer(), None);
}

#[test]
fn precommit_expiry_without_quorum_stalls_unarmed() {
    let mut h = handler_at(Step::Precommit, 2, 5);
    h.initialize();
    let r = h.timeout(ENGINE_TIMEOUT_TOKEN, false);
    assert_eq!(h.current_step(), Step::Precommit);
    assert_eq!(h.round(), 2);
    assert_eq!(h.height(), 5);
    assert_eq!(r, None);
    assert_eq!(h.armed_timer(), None);
}

#[test]
fn precommit_expiry_with_quorum_retries_next_round() {
    let mut h = handler_at(Step::Precommit, 2, 5);
    h.initialize();
    let r = h.timeout(ENGINE_TIMEOUT_TOKEN, true);
    assert_eq!(h.current_step(), Step::Propose);
    assert_eq!(h.round(), 3);
    assert_eq!(h.height(), 5);
    assert_eq!(r, Some(100));
    assert_eq!(h.armed_timer(), Some(100));
}

#[test]
fn commit_expiry_completes_height() {
    let mut h = handler_at(Step::Commit, 2, 5);
    h.initialize();
    let r = h.timeout(ENGINE_TIMEOUT_TOKEN, false);
    assert_eq!(h.current_step(), Step::Propose);
    assert_eq!(h.round(), 0);
    assert_eq!(h.height(), 6);
    assert_eq!(r, Some(100));
    assert_eq!(h.armed_timer(), Some(100));
}

#[test]
fn commit_expiry_ignores_quorum_signal() {
    let mut h = handler_at(Step::Commit, 7, 11);
    h.initialize();
    let r = h.timeout(ENGINE_TIMEOUT_TOKEN, true);
    assert_eq!(h.current_step(), Step::Propose);
    assert_eq!(h.round(), 0);
    assert_eq!(h.height(), 12);
    assert_eq!(r, Some(100));
}

#[test]
fn foreign_token_is_ignored() {
    let mut h = handler_at(Step::Prevote, 1, 7);
    h.initialize();
    let r = h.timeout(7, true);
    assert_eq!(r, None);
    assert_eq!(h.current_step(), Step::Prevote);
    assert_eq!(h.round(), 1);
    assert_eq!(h.height(), 7);
    assert_eq!(h.armed_timer(), Some(100));
}

#[test]
fn reset_rearms_for_current_step_and_leaves_state() {
    let mut h = handler_at(Step::Prevote, 1, 7);
    h.initialize();
    assert_eq!(h.armed_timer(), Some(100));
    let d = h.message(&NextStep);
    assert_eq!(d, 200);
    assert_eq!(h.armed_timer(), Some(200));
    assert_eq!(h.current_step(), Step::Prevote);
    assert_eq!(h.round(), 1);
    assert_eq!(h.height(), 7);
}

#[test]
fn reset_restores_liveness_after_a_stall() {
    let mut h = handler_at(Step::Prevote, 0, 5);
    h.initialize();
    let r = h.timeout(ENGINE_TIMEOUT_TOKEN, false);
    assert_eq!(r, None);
    assert_eq!(h.armed_timer(), None);
    let d = h.message(&NextStep);
    assert_eq!(d, 200);
    assert_eq!(h.armed_timer(), Some(200));
}

#[test]
fn reset_with_no_pending_timer_arms_exactly_one() {
    let mut h = handler_at(Step::Precommit, 4, 2);
    assert_eq!(h.armed_timer(), None);
    let d = h.message(&NextStep);
    assert_eq!(d, 300);
    assert_eq!(h.armed_timer(), Some(300));
}

#[test]
fn cancel_twice_is_benign() {
    let mut slot = TimerSlot::new();
    assert_eq!(slot.armed_duration(), None);
    slot.cancel();
    slot.cancel();
    assert_eq!(slot.armed_duration(), None);
    slot.schedule_once(50);
    assert_eq!(slot.armed_duration(), Some(50));
    slot.cancel();
    slot.cancel();
    assert_eq!(slot.armed_duration(), None);
}

#[test]
fn schedule_replaces_the_pending_deadline() {
    let mut slot = TimerSlot::new();
    slot.schedule_once(50);
    slot.schedule_once(70);
    assert_eq!(slot.armed_duration(), Some(70));
}

#[test]
fn round_state_methods_move_only_their_own_field() {
    let mut s = RoundState::new(Step::Propose, 1, 9);
    assert_eq!(s.current_step(), Step::Propose);
    assert_eq!(s.round(), 1);
    assert_eq!(s.height(), 9);
    s.increment_round();
    assert_eq!(s.round(), 2);
    assert_eq!(s.current_step(), Step::Propose);
    s.set_step(Step::Prevote);
    assert_eq!(s.current_step(), Step::Prevote);
    assert_eq!(s.round(), 2);
    assert_eq!(s.height(), 9);
    s.reset_round();
    s.increment_height();
    assert_eq!(s.round(), 0);
    assert_eq!(s.height(), 10);
}

#[test]
fn successive_expiries_walk_a_full_round() {
    let mut h = handler_at(Step::Propose, 0, 5);
    h.initialize();
    assert_eq!(h.timeout(ENGINE_TIMEOUT_TOKEN, true), Some(200));
    assert_eq!(h.current_step(), Step::Prevote);
    assert_eq!(h.timeout(ENGINE_TIMEOUT_TOKEN, true), Some(300));
    assert_eq!(h.current_step(), Step::Precommit);
    assert_eq!(h.timeout(ENGINE_TIMEOUT_TOKEN, true), Some(100));
    assert_eq!(h.current_step(), Step::Propose);
    assert_eq!(h.round(), 1);
    assert_eq!(h.height(), 5);
}
