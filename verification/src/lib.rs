//! Round/step timeout state machine for a Tendermint-style BFT consensus
//! engine.
//!
//! Liveness of the surrounding protocol depends on bounded waiting: each
//! participant walks a fixed sequence of steps per round and, when the
//! network fails to produce enough votes before a deadline, times out and
//! advances (or retries) instead of stalling. This crate holds the machine
//! that turns timer expiry and vote-quorum signals into step transitions,
//! together with the per-step timeout policy and the single-slot timer
//! scheduling discipline (at most one outstanding deadline, cancel and
//! reschedule on every transition and on every external reset).
//!
//! The timer/event-loop substrate itself, vote counting and the engine
//! lifecycle are external collaborators: the machine consumes a quorum
//! sample as a plain boolean and reports which duration (in milliseconds)
//! to arm on the real timer port.

pub mod handler;
pub mod round_state;
pub mod step;
pub mod timeouts;
pub mod timer;

pub use handler::{NextStep, TimerHandler};
pub use round_state::RoundState;
pub use step::Step;
pub use timeouts::TendermintTimeouts;
pub use timer::{TimerSlot, ENGINE_TIMEOUT_TOKEN};
