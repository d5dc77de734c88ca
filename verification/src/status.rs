//! The states a dispute passes through.

use vstd::prelude::*;

verus! {

/// The status of a dispute. `OPEN` is where every dispute starts; a dispute
/// that has left `OPEN` never returns to it.
#[derive(Clone, Copy, Debug, PartialEq, Eq, Structural)]
pub enum DisputeStatus {
    /// Judges may register, commit and vote.
    OPEN,
    VOTING,
    EXECUTED,
    /// Resolved by a reveal of the committed votes.
    FINISHED,
    /// Resolved by tally: the creator won.
    CREATOR,
    /// Resolved by tally: the counterpart won.
    COUNTERPART,
    /// Resolved by tally: no side reached a supermajority.
    ABSTAIN,
}

} // verus!
