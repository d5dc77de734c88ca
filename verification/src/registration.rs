//! Registering judges for a dispute.

use vstd::prelude::*;
use crate::address::{contains_address, Address};
use crate::dispute::{Dispute, DisputeView};
use crate::error::Error;
use crate::status::DisputeStatus;

verus! {

/// Why `voter` cannot register for the dispute, if it cannot: the two parties
/// never can, nobody can once the dispute has left `OPEN`, and nobody can twice.
pub open spec fn registration_error(dispute: DisputeView, voter: Address) -> Option<Error> {
    if voter == dispute.creator || voter == dispute.counterpart {
        Some(Error::NotAuthorized)
    } else if dispute.dispute_status != DisputeStatus::OPEN {
        Some(Error::InvalidDisputeStatus)
    } else if dispute.able_to_vote.contains(voter) {
        Some(Error::JudgeAlreadyVoted)
    } else {
        None
    }
}

/// The dispute with `voter` as its newest judge.
pub open spec fn registered(dispute: DisputeView, voter: Address) -> DisputeView {
    DisputeView { able_to_vote: dispute.able_to_vote.push(voter), ..dispute }
}

impl Dispute {
    /// Registers `voter` as a judge, or says why not and leaves the dispute as it
    /// was.
    pub fn register_judge(&mut self, voter: Address) -> (result: Result<(), Error>)
        requires
            old(self).wf(),
        ensures
            final(self).wf(),
            match registration_error(old(self)@, voter) {
                Some(error) => result == Err::<(), Error>(error) && final(self)@ == old(self)@,
                None => result is Ok && final(self)@ == registered(old(self)@, voter),
            },
    {
        if voter == self.creator || voter == self.counterpart {
            return Err(Error::NotAuthorized);
        }
        if self.dispute_status != DisputeStatus::OPEN {
            return Err(Error::InvalidDisputeStatus);
        }
        if contains_address(&self.able_to_vote, voter) {
            return Err(Error::JudgeAlreadyVoted);
        }
        let ghost before = self@;
        self.able_to_vote.push(voter);
        proof {
            assert(self@ == registered(before, voter));
            lemma_registered_is_valid(before, voter);
        }
        Ok(())
    }
}

/// Registering a judge keeps a dispute valid.
pub proof fn lemma_registered_is_valid(dispute: DisputeView, voter: Address)
    requires
        dispute.wf(),
        registration_error(dispute, voter) is None,
    ensures
        registered(dispute, voter).wf(),
{
    let after = registered(dispute, voter);
    assert(after.able_to_vote.no_duplicates());
    assert forall|i: int| 0 <= i < after.voters.len() implies after.able_to_vote.contains(
        #[trigger] after.voters[i],
    ) by {
        let k = choose|k: int|
            0 <= k < dispute.able_to_vote.len() && dispute.able_to_vote[k] == dispute.voters[i];
        assert(after.able_to_vote[k] == after.voters[i]);
    }
    assert(!after.able_to_vote.contains(after.creator));
    assert(!after.able_to_vote.contains(after.counterpart));
}

} // verus!
