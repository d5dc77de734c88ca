//! The anonymous scheme: weighted votes hidden in commitments, and the proof
//! that claimed tallies are those of the votes cast.

use vstd::prelude::*;
use crate::address::Address;
use crate::bytes::{contents, same_bytes};
use crate::config::{commitment, AnonymousVoteConfig, ConfigView};
use crate::curve::{g1_curve_point, g1_identity, g1_is_member, g1_member};
use crate::dispute::{has_voted, Dispute, DisputeView, MAX_VOTES_PER_PROPOSAL};
use crate::error::Error;
use crate::host::{g1_add, g1_mul, g1_product, g1_sum};
use crate::status::DisputeStatus;
use crate::vote::{ballots, AnonymousVote, AnonymousVoteView, VoteDataView};

verus! {

/// The weight a voter may use where nothing assigns it another.
pub const DEFAULT_MAX_WEIGHT: u32 = 100;

/// Every commitment of the list encodes a member of G1.
pub open spec fn commitments_in_group(commitments: Seq<Seq<u8>>) -> bool {
    forall|i: int| 0 <= i < commitments.len() ==> g1_member(#[trigger] commitments[i])
}

/// Whether every commitment of the list encodes a member of G1.
pub fn check_commitments(env: &soroban_sdk::Env, commitments: &Vec<[u8; 96]>) -> (in_group: bool)
    ensures
        in_group == commitments_in_group(contents(commitments@)),
{
    let mut i: usize = 0;
    while i < commitments.len()
        invariant
            i <= commitments.len(),
            forall|k: int| 0 <= k < i ==> g1_member(#[trigger] contents(commitments@)[k]),
        decreases commitments.len() - i,
    {
        if !g1_is_member(env, &commitments[i]) {
            assert(!g1_member(contents(commitments@)[i as int]));
            return false;
        }
        i += 1;
    }
    true
}

/// Why the vote is refused, if it is. `in_group` says whether all its
/// commitments encode members of G1; `max_weight` is the most weight the
/// voter may use, 0 for somebody who is no member.
pub open spec fn ballot_error(
    dispute: DisputeView,
    voter: Address,
    vote: AnonymousVoteView,
    in_group: bool,
    now: u64,
    max_weight: u32,
) -> Option<Error> {
    if now >= dispute.vote_data.voting_ends_at {
        Some(Error::ProposalVotingTime)
    } else if dispute.vote_data.votes.len() >= MAX_VOTES_PER_PROPOSAL {
        Some(Error::VoteLimitExceeded)
    } else if has_voted(dispute.vote_data.votes, voter) {
        Some(Error::AlreadyVoted)
    } else if vote.commitments.len() != 3 || !in_group {
        Some(Error::BadCommitment)
    } else if vote.address != voter {
        Some(Error::WrongVoter)
    } else if max_weight == 0 {
        Some(Error::UnknownMember)
    } else if vote.weight > max_weight {
        Some(Error::VoterWeight)
    } else {
        None
    }
}

/// The dispute with `vote` recorded after the others.
pub open spec fn with_ballot(dispute: DisputeView, vote: AnonymousVoteView) -> DisputeView {
    DisputeView {
        vote_data: VoteDataView {
            voting_ends_at: dispute.vote_data.voting_ends_at,
            votes: dispute.vote_data.votes.push(vote),
        },
        ..dispute
    }
}

/// Whether `voter` has cast one of `votes`.
pub fn voted_among(votes: &Vec<AnonymousVote>, voter: Address) -> (found: bool)
    ensures
        found == has_voted(ballots(votes@), voter),
{
    let mut i: usize = 0;
    while i < votes.len()
        invariant
            i <= votes.len(),
            forall|k: int| 0 <= k < i ==> (#[trigger] ballots(votes@)[k]).address != voter,
        decreases votes.len() - i,
    {
        if votes[i].address == voter {
            assert(ballots(votes@)[i as int].address == voter);
            return true;
        }
        i += 1;
    }
    false
}

impl Dispute {
    /// Records `vote` as the vote of `voter`, given whether its commitments
    /// encode members of G1, or says why not and leaves the dispute as it was.
    pub fn record_ballot(
        &mut self,
        voter: Address,
        vote: AnonymousVote,
        in_group: bool,
        now: u64,
        max_weight: u32,
    ) -> (result: Result<(), Error>)
        requires
            old(self).wf(),
        ensures
            final(self).wf(),
            match ballot_error(old(self)@, voter, vote@, in_group, now, max_weight) {
                Some(error) => result == Err::<(), Error>(error) && final(self)@ == old(self)@,
                None => result is Ok && final(self)@ == with_ballot(old(self)@, vote@),
            },
    {
        if now >= self.vote_data.voting_ends_at {
            return Err(Error::ProposalVotingTime);
        }
        if self.vote_data.votes.len() >= MAX_VOTES_PER_PROPOSAL {
            return Err(Error::VoteLimitExceeded);
        }
        if voted_among(&self.vote_data.votes, voter) {
            return Err(Error::AlreadyVoted);
        }
        if vote.commitments.len() != 3 || !in_group {
            return Err(Error::BadCommitment);
        }
        if vote.address != voter {
            return Err(Error::WrongVoter);
        }
        if max_weight == 0 {
            return Err(Error::UnknownMember);
        }
        if vote.weight > max_weight {
            return Err(Error::VoterWeight);
        }
        let ghost before = self@;
        let ghost cast = vote@;
        self.vote_data.votes.push(vote);
        proof {
            assert(self@.vote_data.votes =~= before.vote_data.votes.push(cast));
            assert(self@ == with_ballot(before, cast));
        }
        Ok(())
    }

    /// Checks the commitments of `vote` and records it as the vote of
    /// `voter`, or says why not and leaves the dispute as it was.
    pub fn cast_ballot(
        &mut self,
        env: &soroban_sdk::Env,
        voter: Address,
        vote: AnonymousVote,
        now: u64,
        max_weight: u32,
    ) -> (result: Result<(), Error>)
        requires
            old(self).wf(),
        ensures
            final(self).wf(),
            match ballot_error(
                old(self)@,
                voter,
                vote@,
                commitments_in_group(vote@.commitments),
                now,
                max_weight,
            ) {
                Some(error) => result == Err::<(), Error>(error) && final(self)@ == old(self)@,
                None => result is Ok && final(self)@ == with_ballot(old(self)@, vote@),
            },
    {
        let in_group = check_commitments(env, &vote.commitments);
        self.record_ballot(voter, vote, in_group, now, max_weight)
    }
}

/// The encoding of the point at infinity, the identity of the group.
pub open spec fn identity_encoding() -> Seq<u8> {
    Seq::new(96, |i: int| if i == 0 { 0x40u8 } else { 0u8 })
}

/// The sum, over the first `count` votes, of each vote's commitment for
/// `slot` multiplied by the vote's weight. The sum starts at the identity.
pub open spec fn weighted_sum(votes: Seq<AnonymousVoteView>, slot: int, count: nat) -> Seq<u8>
    decreases count,
{
    if count == 0 {
        identity_encoding()
    } else {
        let vote = votes[count - 1];
        g1_sum(
            weighted_sum(votes, slot, (count - 1) as nat),
            g1_product(vote.commitments[slot], vote.weight as u128),
        )
    }
}

/// Every commitment of every vote encodes a member of G1.
pub open spec fn ballots_in_group(votes: Seq<AnonymousVoteView>) -> bool {
    forall|j: int| 0 <= j < votes.len() ==> commitments_in_group((#[trigger] votes[j]).commitments)
}

/// How many choices a tally and its seeds are checked for: one per entry
/// that both lists have, and no more than the three choices of a vote.
pub open spec fn checked_slots(tallies: Seq<u128>, seeds: Seq<u128>) -> int {
    let shorter = if tallies.len() <= seeds.len() {
        tallies.len()
    } else {
        seeds.len()
    };
    if shorter <= 3 {
        shorter as int
    } else {
        3
    }
}

/// The claimed tallies and seeds are those of the votes cast: for each
/// choice, the commitment to the claimed tally under the claimed seed is the
/// weighted sum of the commitments recorded for that choice.
pub open spec fn tally_proven(
    dispute: DisputeView,
    config: ConfigView,
    tallies: Seq<u128>,
    seeds: Seq<u128>,
) -> bool {
    &&& ballots_in_group(dispute.vote_data.votes)
    &&& forall|slot: int|
        0 <= slot < checked_slots(tallies, seeds) ==> commitment(
            config,
            #[trigger] tallies[slot],
            seeds[slot],
        ) == weighted_sum(dispute.vote_data.votes, slot, dispute.vote_data.votes.len())
}

/// Whether every commitment of every vote encodes a member of G1.
pub fn check_ballots(env: &soroban_sdk::Env, votes: &Vec<AnonymousVote>) -> (in_group: bool)
    ensures
        in_group == ballots_in_group(ballots(votes@)),
{
    let mut j: usize = 0;
    while j < votes.len()
        invariant
            j <= votes.len(),
            forall|k: int|
                0 <= k < j ==> commitments_in_group((#[trigger] ballots(votes@)[k]).commitments),
        decreases votes.len() - j,
    {
        if !check_commitments(env, &votes[j].commitments) {
            assert(!commitments_in_group(ballots(votes@)[j as int].commitments));
            return false;
        }
        j += 1;
    }
    true
}

/// Computes the weighted sum of the commitments recorded for `slot`.
fn weighted_point(env: &soroban_sdk::Env, votes: &Vec<AnonymousVote>, slot: usize) -> (sum: [u8; 96])
    requires
        slot < 3,
        ballots_in_group(ballots(votes@)),
        forall|j: int| 0 <= j < votes@.len() ==> (#[trigger] ballots(votes@)[j]).commitments.len() == 3,
    ensures
        sum@ == weighted_sum(ballots(votes@), slot as int, votes@.len()),
{
    let mut sum = g1_identity();
    assert(sum@ =~= identity_encoding());
    let mut j: usize = 0;
    while j < votes.len()
        invariant
            j <= votes.len(),
            slot < 3,
            ballots_in_group(ballots(votes@)),
            forall|k: int|
                0 <= k < votes@.len() ==> (#[trigger] ballots(votes@)[k]).commitments.len() == 3,
            sum@ == weighted_sum(ballots(votes@), slot as int, j as nat),
            g1_curve_point(sum@),
        decreases votes.len() - j,
    {
        let vote = &votes[j];
        assert(ballots(votes@)[j as int] == vote@);
        assert(commitments_in_group(vote@.commitments));
        assert(vote@.commitments[slot as int] == vote.commitments@[slot as int]@);
        assert(g1_member(vote@.commitments[slot as int]));
        let term = g1_mul(env, &vote.commitments[slot], vote.weight as u128);
        sum = g1_add(env, &sum, &term);
        j += 1;
    }
    sum
}

/// Checks a tally against the votes cast: whether, for each choice, the
/// commitment to the claimed tally under the claimed seed is the weighted sum
/// of the recorded commitments. Only an open dispute is checked.
pub fn check_proof(
    env: &soroban_sdk::Env,
    dispute: &Dispute,
    config: &AnonymousVoteConfig,
    tallies: &Vec<u128>,
    seeds: &Vec<u128>,
) -> (result: Result<bool, Error>)
    requires
        dispute.wf(),
    ensures
        result == if dispute@.dispute_status != DisputeStatus::OPEN {
            Err::<bool, Error>(Error::ProposalActive)
        } else {
            Ok::<bool, Error>(tally_proven(dispute@, config@, tallies@, seeds@))
        },
{
    if dispute.dispute_status != DisputeStatus::OPEN {
        return Err(Error::ProposalActive);
    }
    if !check_ballots(env, &dispute.vote_data.votes) {
        return Ok(false);
    }
    let shorter = if tallies.len() <= seeds.len() {
        tallies.len()
    } else {
        seeds.len()
    };
    let slots: usize = if shorter <= 3 {
        shorter
    } else {
        3
    };
    let mut slot: usize = 0;
    while slot < slots
        invariant
            slot <= slots,
            slots == checked_slots(tallies@, seeds@),
            dispute.wf(),
            dispute@.dispute_status == DisputeStatus::OPEN,
            ballots_in_group(dispute@.vote_data.votes),
            forall|k: int|
                0 <= k < slot ==> commitment(config@, #[trigger] tallies@[k], seeds@[k])
                    == weighted_sum(
                    dispute@.vote_data.votes,
                    k,
                    dispute@.vote_data.votes.len(),
                ),
        decreases slots - slot,
    {
        let claim = config.commit(env, tallies[slot], seeds[slot]);
        let actual = weighted_point(env, &dispute.vote_data.votes, slot);
        if !same_bytes(&claim, &actual) {
            assert(commitment(config@, tallies@[slot as int], seeds@[slot as int]) != weighted_sum(
                dispute@.vote_data.votes,
                slot as int,
                dispute@.vote_data.votes.len(),
            ));
            return Ok(false);
        }
        slot += 1;
    }
    Ok(true)
}

} // verus!
