//! What holds of the protocol across its operations.

use vstd::prelude::*;
use crate::address::Address;
use crate::admin::setup_state;
use crate::config::derived_config;
use crate::anonymous::tally_proven;
use crate::commit_reveal::{
    commit_digest,
    commit_digests,
    lemma_votes_in_favour_bounded,
    reveal_refusal,
    votes_in_favour,
};
use crate::contract::{initial_state, ClaimKey, ContractView};
use crate::dispute::{has_voted, DisputeView};
use crate::disputes::{
    claim_reward_error,
    claim_reward_state,
    create_dispute_state,
    execute_outcome,
};
use crate::error::Error;
use crate::resolution::{supermajority, tally_error};
use crate::status::DisputeStatus;
use crate::storage::after_update;
use crate::vote::AnonymousVoteView;
use crate::voting::{
    commit_vote_outcome,
    register_to_vote_outcome,
    reveal_votes_outcome,
    reveal_votes_state,
    vote_outcome,
};

verus! {

/// The first dispute ever opened has the identifier 1.
pub proof fn law_first_dispute_is_number_one(
    project_id: u32,
    creator: Address,
    counterpart: Address,
    proof_text: Seq<char>,
    voting_ends_at: u64,
    called_contract: Address,
    now: u64,
)
    ensures
        ({
            let after = create_dispute_state(
                initial_state(),
                project_id,
                creator,
                counterpart,
                proof_text,
                voting_ends_at,
                called_contract,
                now,
            );
            &&& after.dispute_count == 1
            &&& after.disputes.contains_key(1)
            &&& after.disputes[1].dispute_id == 1
        }),
{
}

/// Of two disputes opened one after the other, the second has the identifier
/// of the first plus one, whatever they are about.
pub proof fn law_dispute_ids_go_up_by_one(
    state: ContractView,
    first_project: u32,
    first_creator: Address,
    first_counterpart: Address,
    first_proof: Seq<char>,
    first_deadline: u64,
    first_caller: Address,
    first_now: u64,
    second_project: u32,
    second_creator: Address,
    second_counterpart: Address,
    second_proof: Seq<char>,
    second_deadline: u64,
    second_caller: Address,
    second_now: u64,
)
    requires
        state.dispute_count + 2 <= u32::MAX,
    ensures
        ({
            let middle = create_dispute_state(
                state,
                first_project,
                first_creator,
                first_counterpart,
                first_proof,
                first_deadline,
                first_caller,
                first_now,
            );
            let after = create_dispute_state(
                middle,
                second_project,
                second_creator,
                second_counterpart,
                second_proof,
                second_deadline,
                second_caller,
                second_now,
            );
            &&& middle.disputes[middle.dispute_count].dispute_id == state.dispute_count + 1
            &&& after.disputes[after.dispute_count].dispute_id
                == middle.disputes[middle.dispute_count].dispute_id + 1
            &&& after.disputes.contains_key(middle.dispute_count)
            &&& after.disputes[middle.dispute_count] == middle.disputes[middle.dispute_count]
        }),
{
}

/// Somebody who has registered for a dispute cannot register for it again:
/// the second attempt is refused as `JudgeAlreadyVoted` and changes nothing.
pub proof fn law_second_registration_is_refused(state: ContractView, voter: Address, dispute_id: u32)
    requires
        register_to_vote_outcome(state, voter, dispute_id) is Ok,
    ensures
        ({
            let registered = after_update(
                state,
                dispute_id,
                register_to_vote_outcome(state, voter, dispute_id),
            );
            let second = register_to_vote_outcome(registered, voter, dispute_id);
            &&& second == Err::<DisputeView, Error>(Error::JudgeAlreadyVoted)
            &&& after_update(registered, dispute_id, second) == registered
        }),
{
    let dispute = state.disputes[dispute_id];
    let judges = dispute.able_to_vote.push(voter);
    assert(judges[dispute.able_to_vote.len() as int] == voter);
}

/// Neither party of a dispute can register as its judge, whatever the state
/// of the dispute: a party that has a voter's profile is refused as
/// `NotAuthorized`.
pub proof fn law_parties_cannot_register(state: ContractView, voter: Address, dispute_id: u32)
    requires
        state.voters.contains_key(voter),
        state.disputes.contains_key(dispute_id),
        voter == state.disputes[dispute_id].creator || voter
            == state.disputes[dispute_id].counterpart,
    ensures
        register_to_vote_outcome(state, voter, dispute_id) == Err::<DisputeView, Error>(
            Error::NotAuthorized,
        ),
{
}

/// A reveal by the creator of an open dispute, with one vote and one secret
/// per commit, succeeds exactly if every vote with its secret gives the hash
/// committed at its index. Otherwise it is refused as `InvalidReveal` and
/// nothing changes: no vote is counted, and the dispute stays open.
pub proof fn law_reveal_is_all_or_nothing(
    state: ContractView,
    revealer: Address,
    dispute_id: u32,
    votes: Seq<bool>,
    secrets: Seq<Seq<u8>>,
    now: u64,
)
    requires
        state.wf(),
        state.disputes.contains_key(dispute_id),
        reveal_refusal(state.disputes[dispute_id], revealer, votes.len(), secrets.len()) is None,
    ensures
        ({
            let outcome = reveal_votes_outcome(state, revealer, dispute_id, votes, secrets, now);
            let all_match = forall|i: int|
                0 <= i < votes.len() ==> commit_digest(votes[i], #[trigger] secrets[i])
                    == state.disputes[dispute_id].vote_commits[i];
            &&& outcome is Ok <==> all_match
            &&& !all_match ==> {
                &&& outcome == Err::<DisputeView, Error>(Error::InvalidReveal)
                &&& reveal_votes_state(state, revealer, dispute_id, votes, secrets, now) == state
            }
        }),
{
    let dispute = state.disputes[dispute_id];
    let digests = commit_digests(votes, secrets);
    let all_match = forall|i: int|
        0 <= i < votes.len() ==> commit_digest(votes[i], #[trigger] secrets[i])
            == dispute.vote_commits[i];
    if all_match {
        assert(digests =~= dispute.vote_commits) by {
            assert forall|i: int| 0 <= i < digests.len() implies digests[i]
                == dispute.vote_commits[i] by {
                assert(commit_digest(votes[i], secrets[i]) == dispute.vote_commits[i]);
            }
        }
    } else {
        let i = choose|i: int|
            0 <= i < votes.len() && commit_digest(votes[i], #[trigger] secrets[i])
                != dispute.vote_commits[i];
        assert(digests[i] != dispute.vote_commits[i]);
    }
}

/// A successful reveal resolves the dispute by simple majority: the creator
/// wins with strictly more votes for than against, and the counterpart wins
/// otherwise, a tie included. The dispute is then finished, with the votes
/// counted.
pub proof fn law_majority_decides(
    state: ContractView,
    revealer: Address,
    dispute_id: u32,
    votes: Seq<bool>,
    secrets: Seq<Seq<u8>>,
    now: u64,
)
    requires
        state.wf(),
        reveal_votes_outcome(state, revealer, dispute_id, votes, secrets, now) is Ok,
    ensures
        ({
            let before = state.disputes[dispute_id];
            let after = reveal_votes_outcome(state, revealer, dispute_id, votes, secrets, now)->Ok_0;
            let in_favour = votes_in_favour(votes);
            let against = votes.len() - in_favour;
            &&& after.dispute_status == DisputeStatus::FINISHED
            &&& after.votes_for == in_favour
            &&& after.votes_against == against
            &&& after.finish_timestamp == Some(now)
            &&& in_favour > against ==> after.winner == Some(before.creator)
            &&& in_favour <= against ==> after.winner == Some(before.counterpart)
        }),
{
    let before = state.disputes[dispute_id];
    lemma_votes_in_favour_bounded(votes);
}

/// Tallies that are not proven to be those of the votes cast resolve
/// nothing: with a dispute ready for its tally and a voting configuration in
/// place, the tallies are accepted exactly if they are proven, and tallies
/// that are not are refused as `InvalidProof` and change nothing. Accepted
/// tallies decide by the supermajority rule and are kept as the counts of the
/// dispute, whole.
pub proof fn law_tally_needs_its_proof(
    state: ContractView,
    dispute_id: u32,
    tallies: Seq<u128>,
    seeds: Seq<u128>,
    now: u64,
)
    requires
        state.disputes.contains_key(dispute_id),
        tally_error(state.disputes[dispute_id], now, Some(tallies), Some(seeds)) is None,
        state.configs.contains_key(state.disputes[dispute_id].project_id),
    ensures
        ({
            let dispute = state.disputes[dispute_id];
            let outcome = execute_outcome(state, dispute_id, Some(tallies), Some(seeds), now);
            let proven = tally_proven(dispute, state.configs[dispute.project_id], tallies, seeds);
            &&& outcome is Ok <==> proven
            &&& proven ==> {
                &&& outcome->Ok_0.dispute_status == supermajority(
                    tallies[0] as int,
                    tallies[1] as int,
                    tallies[2] as int,
                )
                &&& outcome->Ok_0.votes_for == tallies[0]
                &&& outcome->Ok_0.votes_against == tallies[1]
            }
            &&& !proven ==> {
                &&& outcome == Err::<DisputeView, Error>(Error::InvalidProof)
                &&& after_update(state, dispute_id, outcome) == state
            }
        }),
{
}

/// Nothing is earned from a dispute that is still open: every claim on it is
/// refused as `ProposalActive` and changes nothing.
pub proof fn law_no_claim_on_open_dispute(state: ContractView, voter: Address, dispute_id: u32)
    requires
        state.disputes.contains_key(dispute_id),
        state.disputes[dispute_id].dispute_status == DisputeStatus::OPEN,
    ensures
        claim_reward_error(state, voter, dispute_id) == Some(Error::ProposalActive),
        claim_reward_state(state, voter, dispute_id) == state,
{
}

/// A reward is claimed at most once: after a claim that succeeded, the same
/// voter's next claim on the same dispute is refused as `AlreadyClaimed` and
/// changes nothing, so the profile was credited once.
pub proof fn law_second_claim_is_refused(state: ContractView, voter: Address, dispute_id: u32)
    requires
        claim_reward_error(state, voter, dispute_id) is None,
    ensures
        ({
            let claimed = claim_reward_state(state, voter, dispute_id);
            &&& claim_reward_error(claimed, voter, dispute_id) == Some(Error::AlreadyClaimed)
            &&& claim_reward_state(claimed, voter, dispute_id) == claimed
        }),
{
}

/// Where nobody won, nobody earns: every claim of somebody who voted in a
/// dispute that ended in `ABSTAIN` is refused as `NoWinner` and changes
/// nothing, however often it is made.
pub proof fn law_no_reward_after_abstain(state: ContractView, voter: Address, dispute_id: u32)
    requires
        state.wf(),
        state.disputes.contains_key(dispute_id),
        state.disputes[dispute_id].dispute_status == DisputeStatus::ABSTAIN,
        has_voted(state.disputes[dispute_id].vote_data.votes, voter),
    ensures
        claim_reward_error(state, voter, dispute_id) == Some(Error::NoWinner),
        claim_reward_state(state, voter, dispute_id) == state,
{
    let claim = ClaimKey { dispute_id, voter };
    if state.claims.contains(claim) {
        assert(state.disputes[claim.dispute_id].dispute_status != DisputeStatus::ABSTAIN);
    }
}

/// Anonymous voting is set up once for a project: the first setup keeps the
/// two derived generators with its key, and after a setup, another setup for
/// the same project, with whatever key, changes nothing.
pub proof fn law_setup_happens_once(
    state: ContractView,
    project_id: u32,
    first_key: Seq<char>,
    second_key: Seq<char>,
)
    ensures
        !state.configs.contains_key(project_id) ==> setup_state(
            state,
            project_id,
            first_key,
        ).configs[project_id] == derived_config(first_key),
        setup_state(state, project_id, first_key).configs.contains_key(project_id),
        setup_state(setup_state(state, project_id, first_key), project_id, second_key)
            == setup_state(state, project_id, first_key),
{
}

/// The profile of a voter changes by a claim only: registering, committing,
/// revealing, voting and resolving leave every profile as it is.
pub proof fn law_profiles_change_by_claims_only(
    state: ContractView,
    who: Address,
    dispute_id: u32,
    commit_hash: Seq<u8>,
    votes: Seq<bool>,
    secrets: Seq<Seq<u8>>,
    ballot: AnonymousVoteView,
    max_weight: u32,
    tallies: Option<Seq<u128>>,
    seeds: Option<Seq<u128>>,
    now: u64,
)
    ensures
        after_update(state, dispute_id, register_to_vote_outcome(state, who, dispute_id)).voters
            == state.voters,
        after_update(
            state,
            dispute_id,
            commit_vote_outcome(state, who, dispute_id, commit_hash),
        ).voters == state.voters,
        reveal_votes_state(state, who, dispute_id, votes, secrets, now).voters == state.voters,
        after_update(
            state,
            dispute_id,
            vote_outcome(state, who, dispute_id, ballot, now, max_weight),
        ).voters == state.voters,
        after_update(state, dispute_id, execute_outcome(state, dispute_id, tallies, seeds, now)).voters
            == state.voters,
{
}

/// The status of a dispute never returns to `OPEN`, and a finished dispute
/// keeps its outcome: whatever a judge or the creator does next, its revealed
/// votes, its counts and its winner stay as they are.
pub proof fn law_resolution_is_final(
    state: ContractView,
    who: Address,
    dispute_id: u32,
    commit_hash: Seq<u8>,
    votes: Seq<bool>,
    secrets: Seq<Seq<u8>>,
    ballot: AnonymousVoteView,
    max_weight: u32,
    tallies: Option<Seq<u128>>,
    seeds: Option<Seq<u128>>,
    now: u64,
)
    requires
        state.disputes.contains_key(dispute_id),
        state.disputes[dispute_id].dispute_status != DisputeStatus::OPEN,
    ensures
        ({
            let before = state.disputes[dispute_id];
            let kept = |after: DisputeView|
                {
                    &&& after.dispute_status == before.dispute_status
                    &&& after.votes == before.votes
                    &&& after.votes_for == before.votes_for
                    &&& after.votes_against == before.votes_against
                    &&& after.winner == before.winner
                };
            &&& register_to_vote_outcome(state, who, dispute_id) is Err
            &&& commit_vote_outcome(state, who, dispute_id, commit_hash) is Err
            &&& reveal_votes_outcome(state, who, dispute_id, votes, secrets, now) is Err
            &&& execute_outcome(state, dispute_id, tallies, seeds, now) is Err
            &&& vote_outcome(state, who, dispute_id, ballot, now, max_weight) matches Ok(after)
                ==> kept(after)
        }),
{
}

} // verus!
