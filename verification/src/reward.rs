//! What a voter earns by taking part in a dispute that was resolved.

use vstd::prelude::*;
use crate::address::Address;
use crate::anonymous::voted_among;
use crate::dispute::{has_voted, Dispute, DisputeView};
use crate::error::Error;
use crate::status::DisputeStatus;

verus! {

/// The balance a claim earns.
pub const CLAIM_BALANCE: i128 = 10;

/// The reputation a claim earns.
pub const CLAIM_REPUTATION: u32 = 1;

/// The balance credited for a revealed vote on the winning side.
pub const REWARD_PER_CORRECT_VOTE: i128 = 1_000_000;

/// Why `voter` earns nothing from the dispute, if it does not: nothing is
/// earned while the dispute is open, nothing twice, nothing by somebody who
/// cast no vote, nothing where nobody won, and nothing by somebody without a
/// profile to credit. `claimed` says whether the voter has claimed before,
/// `registered` whether it has a profile.
pub open spec fn claim_error(
    dispute: DisputeView,
    voter: Address,
    claimed: bool,
    registered: bool,
) -> Option<Error> {
    if dispute.dispute_status == DisputeStatus::OPEN {
        Some(Error::ProposalActive)
    } else if claimed {
        Some(Error::AlreadyClaimed)
    } else if !has_voted(dispute.vote_data.votes, voter) {
        Some(Error::VoterNotFound)
    } else if dispute.dispute_status == DisputeStatus::ABSTAIN {
        Some(Error::NoWinner)
    } else if !registered {
        Some(Error::UserNotFound)
    } else {
        None
    }
}

/// What the revealed vote at `index` earns once the dispute is resolved: the
/// reward if it is on the side with the majority, nothing otherwise.
pub open spec fn vote_reward(dispute: DisputeView, index: int) -> i128 {
    if dispute.votes[index].vote == (dispute.votes_for > dispute.votes_against) {
        REWARD_PER_CORRECT_VOTE
    } else {
        0
    }
}

impl Dispute {
    /// What the revealed vote at `index` earns.
    pub fn reward_of(&self, index: usize) -> (reward: i128)
        requires
            index < self@.votes.len(),
        ensures
            reward == vote_reward(self@, index as int),
    {
        let winning = self.votes_for > self.votes_against;
        if self.votes[index].vote == winning {
            REWARD_PER_CORRECT_VOTE
        } else {
            0
        }
    }

    /// Whether `voter` may claim its reward from the dispute.
    pub fn claim_check(&self, voter: Address, claimed: bool, registered: bool) -> (result: Result<
        (),
        Error,
    >)
        ensures
            result == match claim_error(self@, voter, claimed, registered) {
                Some(error) => Err::<(), Error>(error),
                None => Ok::<(), Error>(()),
            },
    {
        if self.dispute_status == DisputeStatus::OPEN {
            return Err(Error::ProposalActive);
        }
        if claimed {
            return Err(Error::AlreadyClaimed);
        }
        if !voted_among(&self.vote_data.votes, voter) {
            return Err(Error::VoterNotFound);
        }
        if self.dispute_status == DisputeStatus::ABSTAIN {
            return Err(Error::NoWinner);
        }
        if !registered {
            return Err(Error::UserNotFound);
        }
        Ok(())
    }
}

} // verus!
