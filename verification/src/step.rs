//! The consensus step: one phase of a single round.

use vstd::prelude::*;

verus! {

/// One phase of a single consensus round, in intended order of progression:
/// `Propose` -> `Prevote` -> `Precommit`, then either back to `Propose` for a
/// new round at the same height, or through `Commit` to `Propose` at the next
/// height.
#[derive(Clone, Copy, Debug, PartialEq, Eq, Structural)]
pub enum Step {
    Propose,
    Prevote,
    Precommit,
    Commit,
}

} // verus!
