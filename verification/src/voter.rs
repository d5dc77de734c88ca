//! The profile of a voter.

use vstd::prelude::*;
use crate::address::Address;

verus! {

/// A voter: who it is, who delegated to it, and what it has earned.
#[derive(Clone, Debug)]
pub struct Voter {
    pub address: Address,
    pub delegates: Vec<Address>,
    pub reputation: u32,
    pub balance: i128,
}

/// What a voter's profile holds.
pub struct VoterView {
    pub address: Address,
    pub delegates: Seq<Address>,
    pub reputation: u32,
    pub balance: i128,
}

impl View for Voter {
    type V = VoterView;

    open spec fn view(&self) -> VoterView {
        VoterView {
            address: self.address,
            delegates: self.delegates@,
            reputation: self.reputation,
            balance: self.balance,
        }
    }
}

/// The profile of somebody who has just become a voter.
pub open spec fn fresh_voter(address: Address) -> VoterView {
    VoterView { address, delegates: Seq::empty(), reputation: 0, balance: 0 }
}

/// The profile after `balance_delta` and `reputation_delta` were earned.
pub open spec fn credited(voter: VoterView, balance_delta: i128, reputation_delta: u32) -> VoterView {
    VoterView {
        balance: (voter.balance + balance_delta) as i128,
        reputation: (voter.reputation + reputation_delta) as u32,
        ..voter
    }
}

/// Whether the profile can take what was earned: both sums fit their fields.
pub open spec fn can_credit(voter: VoterView, balance_delta: i128, reputation_delta: u32) -> bool {
    &&& i128::MIN <= voter.balance + balance_delta <= i128::MAX
    &&& voter.reputation + reputation_delta <= u32::MAX
}

impl Voter {
    /// The profile of somebody who has just become a voter.
    pub fn new(address: Address) -> (voter: Voter)
        ensures
            voter@ == fresh_voter(address),
    {
        Voter { address, delegates: Vec::new(), reputation: 0, balance: 0 }
    }

    /// Adds what was earned to the profile.
    pub fn credit(&mut self, balance_delta: i128, reputation_delta: u32)
        requires
            can_credit(old(self)@, balance_delta, reputation_delta),
        ensures
            final(self)@ == credited(old(self)@, balance_delta, reputation_delta),
    {
        self.balance = self.balance + balance_delta;
        self.reputation = self.reputation + reputation_delta;
    }

    /// A copy of this profile.
    pub fn duplicate(&self) -> (copy: Voter)
        ensures
            copy@ == self@,
    {
        let delegates = self.delegates.clone();
        assert(delegates@ =~= self.delegates@);
        Voter {
            address: self.address,
            delegates,
            reputation: self.reputation,
            balance: self.balance,
        }
    }
}

} // verus!
