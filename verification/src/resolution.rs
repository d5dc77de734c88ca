//! Resolving a dispute from the tallies of its anonymous votes.

use vstd::prelude::*;
use crate::address::Address;
use crate::dispute::{Dispute, DisputeView};
use crate::error::Error;
use crate::status::DisputeStatus;

verus! {

/// The outcome of a tally: a side wins only with more votes than all other
/// votes together, abstentions included; otherwise nobody wins.
pub open spec fn supermajority(approve: int, reject: int, abstain: int) -> DisputeStatus {
    if approve > reject + abstain {
        DisputeStatus::CREATOR
    } else if reject > approve + abstain {
        DisputeStatus::COUNTERPART
    } else {
        DisputeStatus::ABSTAIN
    }
}

/// Decides the outcome of a tally by the supermajority rule.
pub fn tallies_to_result(voted_approve: u128, voted_reject: u128, voted_abstain: u128) -> (status:
    DisputeStatus)
    ensures
        status == supermajority(voted_approve as int, voted_reject as int, voted_abstain as int),
{
    let approve_wins = match voted_reject.checked_add(voted_abstain) {
        Some(others) => voted_approve > others,
        None => false,
    };
    let reject_wins = match voted_approve.checked_add(voted_abstain) {
        Some(others) => voted_reject > others,
        None => false,
    };
    if approve_wins {
        DisputeStatus::CREATOR
    } else if reject_wins {
        DisputeStatus::COUNTERPART
    } else {
        DisputeStatus::ABSTAIN
    }
}

/// Decides the outcome of the tallies for approve, reject and abstain, in
/// that order.
pub fn anonymous_execute(tallies: &Vec<u128>) -> (status: DisputeStatus)
    requires
        tallies@.len() >= 3,
    ensures
        status == supermajority(tallies@[0] as int, tallies@[1] as int, tallies@[2] as int),
{
    tallies_to_result(tallies[0], tallies[1], tallies[2])
}

/// The numbers of an optional list.
pub open spec fn optional_numbers(list: Option<Vec<u128>>) -> Option<Seq<u128>> {
    match list {
        Some(numbers) => Some(numbers@),
        None => None,
    }
}

/// Why no tally is taken for the dispute, if none is: only an open dispute is
/// resolved, only after its voting has ended, and only from three tallies and
/// three seeds.
pub open spec fn tally_error(
    dispute: DisputeView,
    now: u64,
    tallies: Option<Seq<u128>>,
    seeds: Option<Seq<u128>>,
) -> Option<Error> {
    if dispute.dispute_status != DisputeStatus::OPEN {
        Some(Error::ProposalActive)
    } else if now < dispute.vote_data.voting_ends_at {
        Some(Error::ProposalVotingTime)
    } else if !(tallies matches Some(t) && seeds matches Some(s) && t.len() == 3 && s.len() == 3) {
        Some(Error::TallySeedError)
    } else {
        None
    }
}

/// Why the dispute is not resolved by the tallies, if it is not. `proven` says
/// whether the tallies were shown to be those of the votes cast.
pub open spec fn settlement_error(
    dispute: DisputeView,
    now: u64,
    tallies: Option<Seq<u128>>,
    seeds: Option<Seq<u128>>,
    proven: bool,
) -> Option<Error> {
    match tally_error(dispute, now, tallies, seeds) {
        Some(error) => Some(error),
        None => if proven {
            None
        } else {
            Some(Error::InvalidProof)
        },
    }
}

/// Who wins a dispute resolved with `status`.
pub open spec fn tally_winner(dispute: DisputeView, status: DisputeStatus) -> Option<Address> {
    match status {
        DisputeStatus::CREATOR => Some(dispute.creator),
        DisputeStatus::COUNTERPART => Some(dispute.counterpart),
        _ => None,
    }
}

/// The dispute resolved by `tallies` at time `now`.
pub open spec fn settled(dispute: DisputeView, tallies: Seq<u128>, now: u64) -> DisputeView {
    let status = supermajority(tallies[0] as int, tallies[1] as int, tallies[2] as int);
    DisputeView {
        dispute_status: status,
        votes_for: tallies[0],
        votes_against: tallies[1],
        winner: tally_winner(dispute, status),
        finish_timestamp: Some(now),
        ..dispute
    }
}

impl Dispute {
    /// Whether a tally may be taken for the dispute at time `now`.
    pub fn ready_for_tally(
        &self,
        now: u64,
        tallies: &Option<Vec<u128>>,
        seeds: &Option<Vec<u128>>,
    ) -> (result: Result<(), Error>)
        ensures
            result == match tally_error(
                self@,
                now,
                optional_numbers(*tallies),
                optional_numbers(*seeds),
            ) {
                Some(error) => Err::<(), Error>(error),
                None => Ok::<(), Error>(()),
            },
    {
        if self.dispute_status != DisputeStatus::OPEN {
            return Err(Error::ProposalActive);
        }
        if now < self.vote_data.voting_ends_at {
            return Err(Error::ProposalVotingTime);
        }
        match (tallies, seeds) {
            (Some(t), Some(s)) => {
                if t.len() != 3 || s.len() != 3 {
                    Err(Error::TallySeedError)
                } else {
                    Ok(())
                }
            },
            _ => Err(Error::TallySeedError),
        }
    }

    /// Resolves the dispute by `tallies`, given whether they were shown to be
    /// those of the votes cast, or says why not and leaves the dispute as it
    /// was. Returns the outcome.
    pub fn settle(
        &mut self,
        now: u64,
        tallies: &Option<Vec<u128>>,
        seeds: &Option<Vec<u128>>,
        proven: bool,
    ) -> (result: Result<DisputeStatus, Error>)
        requires
            old(self).wf(),
        ensures
            final(self).wf(),
            match settlement_error(
                old(self)@,
                now,
                optional_numbers(*tallies),
                optional_numbers(*seeds),
                proven,
            ) {
                Some(error) => {
                    &&& result == Err::<DisputeStatus, Error>(error)
                    &&& final(self)@ == old(self)@
                },
                None => {
                    &&& final(self)@ == settled(old(self)@, tallies->0@, now)
                    &&& result == Ok::<DisputeStatus, Error>(final(self)@.dispute_status)
                },
            },
    {
        match self.ready_for_tally(now, tallies, seeds) {
            Err(error) => {
                return Err(error);
            },
            Ok(()) => {},
        }
        if !proven {
            return Err(Error::InvalidProof);
        }
        match tallies {
            Some(t) => {
                let status = anonymous_execute(t);
                self.dispute_status = status;
                self.votes_for = t[0];
                self.votes_against = t[1];
                self.winner = match status {
                    DisputeStatus::CREATOR => Some(self.creator),
                    DisputeStatus::COUNTERPART => Some(self.counterpart),
                    _ => None,
                };
                self.finish_timestamp = Some(now);
                Ok(status)
            },
            None => Err(Error::TallySeedError),
        }
    }
}

} // verus!
