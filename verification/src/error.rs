//! Why a tally certificate could not be built.

use crate::vote_plan::Found;
use vstd::prelude::*;

verus! {

/// The ways in which building a tally certificate fails. Each one ends the
/// build; nothing is produced.
#[derive(Clone, Copy, Debug, PartialEq, Eq, Structural)]
pub enum Error {
    /// No vote plan of the source matches.
    VotePlanNotFound,
    /// The source holds several vote plans and no identifier picks one.
    AmbiguousVotePlan,
    /// The number of share collections is not the number of proposals.
    ShareCountMismatch { expected: usize, actual: usize },
    /// A proposal's tally is not a decrypted private tally.
    PrivateTallyExpected { found: Found },
}

} // verus!
