//! The per-step timeout policy: an immutable table of base durations.

use vstd::prelude::*;

use crate::step::Step;

verus! {

/// The uniform baseline used when no durations are configured.
pub const DEFAULT_TIMEOUT_MS: u64 = 1000;

/// Base timeout of each step in ms.
///
/// Immutable once constructed; every duration is strictly positive (see
/// [`TendermintTimeouts::wf`]), which `new` enforces and `default` supplies.
#[derive(Debug, Clone)]
pub struct TendermintTimeouts {
    pub propose: u64,
    pub prevote: u64,
    pub precommit: u64,
    pub commit: u64,
}

impl TendermintTimeouts {
    /// Well-formedness: a zero duration would make the machine spin, so all
    /// four are strictly positive.
    pub open spec fn wf(&self) -> bool {
        &&& self.propose > 0
        &&& self.prevote > 0
        &&& self.precommit > 0
        &&& self.commit > 0
    }

    /// The duration the table assigns to `step`.
    pub open spec fn spec_for_step(&self, step: Step) -> u64 {
        match step {
            Step::Propose => self.propose,
            Step::Prevote => self.prevote,
            Step::Precommit => self.precommit,
            Step::Commit => self.commit,
        }
    }

    /// Builds the table, rejecting any non-positive duration at construction
    /// time so that lookups never have a failure mode.
    pub fn new(propose: u64, prevote: u64, precommit: u64, commit: u64) -> (r: Option<
        TendermintTimeouts,
    >)
        ensures
            propose > 0 && prevote > 0 && precommit > 0 && commit > 0 ==> (r == Some(
                TendermintTimeouts { propose, prevote, precommit, commit },
            )),
            !(propose > 0 && prevote > 0 && precommit > 0 && commit > 0) ==> r is None,
            r matches Some(t) ==> t.wf(),
    {
        if propose > 0 && prevote > 0 && precommit > 0 && commit > 0 {
            Some(TendermintTimeouts { propose, prevote, precommit, commit })
        } else {
            None
        }
    }

    /// Pure, total lookup of the duration for `step`.
    pub fn for_step(&self, step: Step) -> (r: u64)
        ensures
            r == self.spec_for_step(step),
    {
        match step {
            Step::Propose => self.propose,
            Step::Prevote => self.prevote,
            Step::Precommit => self.precommit,
            Step::Commit => self.commit,
        }
    }
}

impl Default for TendermintTimeouts {
    /// The uniform baseline table: every step waits `DEFAULT_TIMEOUT_MS`.
    fn default() -> (r: Self)
        ensures
            r.propose == DEFAULT_TIMEOUT_MS,
            r.prevote == DEFAULT_TIMEOUT_MS,
            r.precommit == DEFAULT_TIMEOUT_MS,
            r.commit == DEFAULT_TIMEOUT_MS,
            r.wf(),
    {
        TendermintTimeouts {
            propose: DEFAULT_TIMEOUT_MS,
            prevote: DEFAULT_TIMEOUT_MS,
            precommit: DEFAULT_TIMEOUT_MS,
            commit: DEFAULT_TIMEOUT_MS,
        }
    }
}

} // verus!
