//! The operations of the judges: registering, committing, revealing, and
//! casting anonymous votes.

use vstd::prelude::*;
use crate::address::Address;
use crate::anonymous::{ballot_error, commitments_in_group, with_ballot};
use crate::bytes::contents;
use crate::commit_reveal::{
    commit_digests,
    commit_error,
    committed,
    reveal_digests,
    reveal_refusal,
    revealed,
    secret_bytes,
    MAX_SECRET_LEN,
};
use crate::config::{commitment, ConfigView};
use crate::contract::{balance_of, ContractView, ProtocolContract};
use crate::curve::g1_member;
use crate::dispute::{Dispute, DisputeView};
use crate::error::Error;
use crate::registration::{registered, registration_error};
use crate::reward::{vote_reward, REWARD_PER_CORRECT_VOTE};
use crate::storage::{
    after_update,
    dispute_outcome,
    get_dispute,
    lemma_update_keeps_valid,
    unit_outcome,
    with_dispute,
};
use crate::vote::{AnonymousVoteView, Vote2};

verus! {

/// What registering `voter` for a dispute comes to: only somebody with a
/// voter's profile registers, and only for a dispute that exists.
pub open spec fn register_to_vote_outcome(state: ContractView, voter: Address, dispute_id: u32) -> Result<
    DisputeView,
    Error,
> {
    if !state.voters.contains_key(voter) {
        Err(Error::UserNotFound)
    } else if !state.disputes.contains_key(dispute_id) {
        Err(Error::DisputeNotFound)
    } else {
        match registration_error(state.disputes[dispute_id], voter) {
            Some(error) => Err(error),
            None => Ok(registered(state.disputes[dispute_id], voter)),
        }
    }
}

/// Registers `voter` as a judge of the dispute and returns the dispute, or
/// says why not and changes nothing.
pub fn register_to_vote(contract: &mut ProtocolContract, voter: Address, dispute_id: u32) -> (result:
    Result<Dispute, Error>)
    requires
        old(contract).wf(),
    ensures
        final(contract).wf(),
        dispute_outcome(result) == register_to_vote_outcome(old(contract)@, voter, dispute_id),
        final(contract)@ == after_update(
            old(contract)@,
            dispute_id,
            register_to_vote_outcome(old(contract)@, voter, dispute_id),
        ),
{
    if contract.voter(voter).is_none() {
        return Err(Error::UserNotFound);
    }
    let mut dispute = match get_dispute(contract, dispute_id) {
        Ok(dispute) => dispute,
        Err(error) => {
            return Err(error);
        },
    };
    match dispute.register_judge(voter) {
        Err(error) => Err(error),
        Ok(()) => {
            contract.store_dispute(dispute_id, dispute.duplicate());
            proof {
                lemma_update_keeps_valid(old(contract)@, dispute_id, dispute@);
            }
            Ok(dispute)
        },
    }
}

/// What the commit of `voter` to a dispute comes to.
pub open spec fn commit_vote_outcome(
    state: ContractView,
    voter: Address,
    dispute_id: u32,
    commit_hash: Seq<u8>,
) -> Result<DisputeView, Error> {
    if !state.disputes.contains_key(dispute_id) {
        Err(Error::DisputeNotFound)
    } else {
        match commit_error(state.disputes[dispute_id], voter) {
            Some(error) => Err(error),
            None => Ok(committed(state.disputes[dispute_id], voter, commit_hash)),
        }
    }
}

/// Records the hash that `voter` commits to and returns the dispute, or says
/// why not and changes nothing.
pub fn commit_vote(
    contract: &mut ProtocolContract,
    voter: Address,
    dispute_id: u32,
    commit_hash: [u8; 32],
) -> (result: Result<Dispute, Error>)
    requires
        old(contract).wf(),
    ensures
        final(contract).wf(),
        dispute_outcome(result) == commit_vote_outcome(
            old(contract)@,
            voter,
            dispute_id,
            commit_hash@,
        ),
        final(contract)@ == after_update(
            old(contract)@,
            dispute_id,
            commit_vote_outcome(old(contract)@, voter, dispute_id, commit_hash@),
        ),
{
    let mut dispute = match get_dispute(contract, dispute_id) {
        Ok(dispute) => dispute,
        Err(error) => {
            return Err(error);
        },
    };
    match dispute.commit(voter, commit_hash) {
        Err(error) => Err(error),
        Ok(()) => {
            contract.store_dispute(dispute_id, dispute.duplicate());
            proof {
                lemma_update_keeps_valid(old(contract)@, dispute_id, dispute@);
            }
            Ok(dispute)
        },
    }
}

/// The balances after the first `count` revealed votes of the dispute were
/// paid what they earn: each vote on the winning side adds the reward to the
/// balance of the judge who cast it.
pub open spec fn rewards_paid(balances: Map<Address, i128>, dispute: DisputeView, count: nat) -> Map<
    Address,
    i128,
>
    decreases count,
{
    if count == 0 {
        balances
    } else {
        let paid = rewards_paid(balances, dispute, (count - 1) as nat);
        let vote = dispute.votes[count - 1];
        if vote_reward(dispute, count - 1) == 0 {
            paid
        } else {
            paid.insert(
                vote.account,
                (balance_of(paid, vote.account) + vote_reward(dispute, count - 1)) as i128,
            )
        }
    }
}

/// What the reveal of the votes of a dispute comes to: the dispute must
/// exist and the creator reveal it while it is open, with one vote and one
/// secret for each commit; and each vote, hashed with its secret, must give the
/// hash committed at its index.
pub open spec fn reveal_votes_outcome(
    state: ContractView,
    revealer: Address,
    dispute_id: u32,
    votes: Seq<bool>,
    secrets: Seq<Seq<u8>>,
    now: u64,
) -> Result<DisputeView, Error> {
    if !state.disputes.contains_key(dispute_id) {
        Err(Error::DisputeNotFound)
    } else {
        let dispute = state.disputes[dispute_id];
        match reveal_refusal(dispute, revealer, votes.len(), secrets.len()) {
            Some(error) => Err(error),
            None => if commit_digests(votes, secrets) != dispute.vote_commits {
                Err(Error::InvalidReveal)
            } else {
                Ok(revealed(dispute, votes, now))
            },
        }
    }
}

/// The state after the reveal of the votes of a dispute: where it succeeded,
/// the dispute is resolved and every judge on the winning side was paid.
pub open spec fn reveal_votes_state(
    state: ContractView,
    revealer: Address,
    dispute_id: u32,
    votes: Seq<bool>,
    secrets: Seq<Seq<u8>>,
    now: u64,
) -> ContractView {
    match reveal_votes_outcome(state, revealer, dispute_id, votes, secrets, now) {
        Err(_) => state,
        Ok(dispute) => ContractView {
            balances: rewards_paid(state.balances, dispute, dispute.votes.len()),
            ..with_dispute(state, dispute_id, dispute)
        },
    }
}

/// Every secret is short enough to be hashed.
pub open spec fn secrets_fit(secrets: Seq<Seq<u8>>) -> bool {
    forall|i: int| 0 <= i < secrets.len() ==> (#[trigger] secrets[i]).len() <= MAX_SECRET_LEN
}

/// The balance of every judge whose revealed vote earns a reward has room for
/// it.
pub open spec fn rewards_fit(balances: Map<Address, i128>, dispute: DisputeView) -> bool {
    forall|i: int|
        0 <= i < dispute.votes.len() && vote_reward(dispute, i) != 0 ==> balance_of(
            balances,
            (#[trigger] dispute.votes[i]).account,
        ) + REWARD_PER_CORRECT_VOTE <= i128::MAX
}

/// The reveal can be carried out on this machine: where it gets as far as
/// hashing, every secret is short enough to be hashed, and where it succeeds,
/// every balance that is paid has room for the reward. Nothing is asked where
/// the reveal is refused before.
pub open spec fn reveal_fits(
    state: ContractView,
    revealer: Address,
    dispute_id: u32,
    votes: Seq<bool>,
    secrets: Seq<Seq<u8>>,
    now: u64,
) -> bool {
    &&& state.disputes.contains_key(dispute_id) && reveal_refusal(
        state.disputes[dispute_id],
        revealer,
        votes.len(),
        secrets.len(),
    ) is None ==> secrets_fit(secrets)
    &&& reveal_votes_outcome(state, revealer, dispute_id, votes, secrets, now) matches Ok(dispute)
        ==> rewards_fit(state.balances, dispute)
}

/// Paying the first `count` votes leaves the balance of everybody else as it
/// was.
proof fn lemma_rewards_leave_others(
    balances: Map<Address, i128>,
    dispute: DisputeView,
    count: nat,
    who: Address,
)
    requires
        count <= dispute.votes.len(),
        forall|k: int| 0 <= k < count ==> (#[trigger] dispute.votes[k]).account != who,
    ensures
        balance_of(rewards_paid(balances, dispute, count), who) == balance_of(balances, who),
    decreases count,
{
    if count > 0 {
        lemma_rewards_leave_others(balances, dispute, (count - 1) as nat, who);
        assert(dispute.votes[count - 1].account != who);
    }
}

/// Reveals the committed votes of a dispute and resolves it by simple
/// majority, paying the reward to every judge on the winning side; returns the
/// dispute. Nothing changes unless every vote, with its secret, gives the hash
/// committed at its index.
pub fn reveal_votes(
    env: &soroban_sdk::Env,
    contract: &mut ProtocolContract,
    creator: Address,
    dispute_id: u32,
    votes: Vec<bool>,
    secrets: Vec<Vec<u8>>,
    now: u64,
) -> (result: Result<Dispute, Error>)
    requires
        old(contract).wf(),
        reveal_fits(old(contract)@, creator, dispute_id, votes@, secret_bytes(secrets@), now),
    ensures
        final(contract).wf(),
        dispute_outcome(result) == reveal_votes_outcome(
            old(contract)@,
            creator,
            dispute_id,
            votes@,
            secret_bytes(secrets@),
            now,
        ),
        final(contract)@ == reveal_votes_state(
            old(contract)@,
            creator,
            dispute_id,
            votes@,
            secret_bytes(secrets@),
            now,
        ),
{
    let mut dispute = match get_dispute(contract, dispute_id) {
        Ok(dispute) => dispute,
        Err(error) => {
            return Err(error);
        },
    };
    let ghost before = dispute@;
    assert(secret_bytes(secrets@).len() == secrets@.len());
    match dispute.ready_for_reveal(creator, votes.len(), secrets.len()) {
        Err(error) => {
            return Err(error);
        },
        Ok(()) => {},
    }
    assert forall|i: int| 0 <= i < secrets@.len() implies (#[trigger] secrets@[i])@.len()
        <= MAX_SECRET_LEN by {
        assert(secret_bytes(secrets@)[i] == secrets@[i]@);
    }
    let digests = reveal_digests(env, &votes, &secrets);
    match dispute.resolve_by_reveal(creator, &votes, &digests, now) {
        Err(error) => {
            return Err(error);
        },
        Ok(()) => {},
    }
    contract.store_dispute(dispute_id, dispute.duplicate());
    proof {
        lemma_update_keeps_valid(old(contract)@, dispute_id, dispute@);
    }
    let ghost start = old(contract)@;
    let ghost stored = contract@;
    let mut i: usize = 0;
    while i < dispute.votes.len()
        invariant
            i <= dispute.votes.len(),
            contract.tables_valid(),
            stored == with_dispute(start, dispute_id, dispute@),
            stored.wf(),
            dispute.wf(),
            dispute@.votes.len() == dispute@.voters.len(),
            dispute@.voters == before.voters,
            start.disputes.contains_key(dispute_id),
            start.disputes[dispute_id] == before,
            rewards_fit(start.balances, dispute@),
            contract@ == (ContractView {
                balances: rewards_paid(start.balances, dispute@, i as nat),
                ..stored
            }),
        decreases dispute.votes.len() - i,
    {
        let vote = dispute.votes[i];
        let reward = dispute.reward_of(i);
        if reward != 0 {
            let balance = contract.balance(vote.account);
            proof {
                assert(vote.account == dispute@.voters[i as int]);
                assert forall|k: int| 0 <= k < i implies (#[trigger] dispute@.votes[k]).account
                    != vote.account by {
                    assert(dispute@.votes[k].account == dispute@.voters[k]);
                }
                lemma_rewards_leave_others(start.balances, dispute@, i as nat, vote.account);
                assert(balance == balance_of(start.balances, before.voters[i as int]));
            }
            contract.store_balance(vote.account, balance + reward);
        }
        i += 1;
    }
    Ok(dispute)
}

/// The reveal can be carried out whatever it comes to: every secret is short
/// enough to be hashed, and the balance of every judge who committed to the
/// dispute, if there is such a dispute, has room for a reward.
pub open spec fn room_for_reveal(state: ContractView, dispute_id: u32, secrets: Seq<Seq<u8>>) -> bool {
    &&& secrets_fit(secrets)
    &&& state.disputes.contains_key(dispute_id) ==> forall|i: int|
        0 <= i < state.disputes[dispute_id].voters.len() ==> balance_of(
            state.balances,
            #[trigger] state.disputes[dispute_id].voters[i],
        ) + REWARD_PER_CORRECT_VOTE <= i128::MAX
}

/// Whether every secret is short enough to be hashed.
fn check_secrets(secrets: &Vec<Vec<u8>>) -> (fit: bool)
    ensures
        fit == secrets_fit(secret_bytes(secrets@)),
{
    let mut i: usize = 0;
    while i < secrets.len()
        invariant
            i <= secrets.len(),
            forall|k: int| 0 <= k < i ==> (#[trigger] secret_bytes(secrets@)[k]).len() <= MAX_SECRET_LEN,
        decreases secrets.len() - i,
    {
        if secrets[i].len() > MAX_SECRET_LEN {
            assert(secret_bytes(secrets@)[i as int].len() > MAX_SECRET_LEN);
            return false;
        }
        i += 1;
    }
    true
}

/// Reveals the committed votes of a dispute as `reveal_votes` does, after
/// testing that the reveal can be carried out on this machine. Where it
/// cannot, nothing is done and nothing is returned.
pub fn reveal_votes_if_room(
    env: &soroban_sdk::Env,
    contract: &mut ProtocolContract,
    creator: Address,
    dispute_id: u32,
    votes: Vec<bool>,
    secrets: Vec<Vec<u8>>,
    now: u64,
) -> (result: Option<Result<Dispute, Error>>)
    requires
        old(contract).wf(),
    ensures
        final(contract).wf(),
        result is Some <==> room_for_reveal(old(contract)@, dispute_id, secret_bytes(secrets@)),
        match result {
            Some(revealed) => {
                &&& dispute_outcome(revealed) == reveal_votes_outcome(
                    old(contract)@,
                    creator,
                    dispute_id,
                    votes@,
                    secret_bytes(secrets@),
                    now,
                )
                &&& final(contract)@ == reveal_votes_state(
                    old(contract)@,
                    creator,
                    dispute_id,
                    votes@,
                    secret_bytes(secrets@),
                    now,
                )
            },
            None => final(contract)@ == old(contract)@,
        },
{
    if !check_secrets(&secrets) {
        return None;
    }
    match contract.dispute(dispute_id) {
        None => {},
        Some(dispute) => {
            let mut i: usize = 0;
            while i < dispute.voters.len()
                invariant
                    i <= dispute.voters.len(),
                    contract.wf(),
                    contract@ == old(contract)@,
                    contract@.disputes.contains_key(dispute_id),
                    dispute@ == contract@.disputes[dispute_id],
                    forall|k: int|
                        0 <= k < i ==> balance_of(contract@.balances, #[trigger] dispute@.voters[k])
                            + REWARD_PER_CORRECT_VOTE <= i128::MAX,
                decreases dispute.voters.len() - i,
            {
                if contract.balance(dispute.voters[i]) > i128::MAX - REWARD_PER_CORRECT_VOTE {
                    return None;
                }
                i += 1;
            }
        },
    }
    proof {
        let state = old(contract)@;
        let hidden = secret_bytes(secrets@);
        let outcome = reveal_votes_outcome(state, creator, dispute_id, votes@, hidden, now);
        if outcome is Ok {
            let before = state.disputes[dispute_id];
            let after = outcome->Ok_0;
            assert forall|i: int|
                0 <= i < after.votes.len() && vote_reward(after, i) != 0 implies balance_of(
                state.balances,
                (#[trigger] after.votes[i]).account,
            ) + REWARD_PER_CORRECT_VOTE <= i128::MAX by {
                assert(after.votes[i].account == before.voters[i]);
            }
        }
    }
    Some(reveal_votes(env, contract, creator, dispute_id, votes, secrets, now))
}

/// The commitments to each vote under the seed at the same index.
pub open spec fn commitments_of(config: ConfigView, votes: Seq<u128>, seeds: Seq<u128>) -> Seq<Seq<u8>> {
    Seq::new(votes.len(), |i: int| commitment(config, votes[i], seeds[i]))
}

/// What building commitments comes to: there must be as many seeds as votes,
/// and a voting configuration for the project.
pub open spec fn build_commitments_outcome(
    state: ContractView,
    project_id: u32,
    votes: Seq<u128>,
    seeds: Seq<u128>,
) -> Result<Seq<Seq<u8>>, Error> {
    if votes.len() != seeds.len() {
        Err(Error::TallySeedError)
    } else if !state.configs.contains_key(project_id) {
        Err(Error::NoAnonymousVotingConfig)
    } else {
        Ok(commitments_of(state.configs[project_id], votes, seeds))
    }
}

/// What a list of commitments, or the error in its place, holds.
pub open spec fn commitments_outcome(result: Result<Vec<[u8; 96]>, Error>) -> Result<
    Seq<Seq<u8>>,
    Error,
> {
    match result {
        Ok(commitments) => Ok(contents(commitments@)),
        Err(error) => Err(error),
    }
}

/// Builds the commitment to each vote under the seed at the same index, with
/// the generators configured for `project_id`. Every commitment built is a
/// member of G1. This shows the votes to whoever runs it, so it is for the
/// voter's own machine.
pub fn build_commitments_from_votes(
    env: &soroban_sdk::Env,
    contract: &ProtocolContract,
    project_id: u32,
    votes: &Vec<u128>,
    seeds: &Vec<u128>,
) -> (result: Result<Vec<[u8; 96]>, Error>)
    requires
        contract.wf(),
    ensures
        commitments_outcome(result) == build_commitments_outcome(
            contract@,
            project_id,
            votes@,
            seeds@,
        ),
        result matches Ok(commitments) ==> commitments_in_group(contents(commitments@)),
{
    if votes.len() != seeds.len() {
        return Err(Error::TallySeedError);
    }
    let config = match contract.config(project_id) {
        Some(config) => config,
        None => {
            return Err(Error::NoAnonymousVotingConfig);
        },
    };
    let mut commitments: Vec<[u8; 96]> = Vec::new();
    let mut i: usize = 0;
    while i < votes.len()
        invariant
            i <= votes.len(),
            votes.len() == seeds.len(),
            commitments@.len() == i,
            forall|k: int|
                0 <= k < i ==> (#[trigger] commitments@[k])@ == commitment(
                    config@,
                    votes@[k],
                    seeds@[k],
                ),
            forall|k: int| 0 <= k < i ==> g1_member((#[trigger] commitments@[k])@),
        decreases votes.len() - i,
    {
        let point = config.commit(env, votes[i], seeds[i]);
        commitments.push(point);
        i += 1;
    }
    assert(contents(commitments@) =~= commitments_of(config@, votes@, seeds@));
    assert forall|k: int| 0 <= k < contents(commitments@).len() implies g1_member(
        #[trigger] contents(commitments@)[k],
    ) by {
        assert(contents(commitments@)[k] == commitments@[k]@);
    }
    Ok(commitments)
}

/// What casting `vote` on a dispute comes to.
pub open spec fn vote_outcome(
    state: ContractView,
    voter: Address,
    dispute_id: u32,
    vote: AnonymousVoteView,
    now: u64,
    max_weight: u32,
) -> Result<DisputeView, Error> {
    if !state.disputes.contains_key(dispute_id) {
        Err(Error::DisputeNotFound)
    } else {
        let dispute = state.disputes[dispute_id];
        match ballot_error(
            dispute,
            voter,
            vote,
            commitments_in_group(vote.commitments),
            now,
            max_weight,
        ) {
            Some(error) => Err(error),
            None => Ok(with_ballot(dispute, vote)),
        }
    }
}

/// Casts the anonymous vote of `voter` on a dispute, or says why not and
/// changes nothing. `max_weight` is the most weight the voter may use, 0 for
/// somebody who is no member.
pub fn vote(
    env: &soroban_sdk::Env,
    contract: &mut ProtocolContract,
    voter: Address,
    dispute_id: u32,
    ballot: Vote2,
    now: u64,
    max_weight: u32,
) -> (result: Result<(), Error>)
    requires
        old(contract).wf(),
    ensures
        final(contract).wf(),
        result == unit_outcome(
            vote_outcome(old(contract)@, voter, dispute_id, ballot@, now, max_weight),
        ),
        final(contract)@ == after_update(
            old(contract)@,
            dispute_id,
            vote_outcome(old(contract)@, voter, dispute_id, ballot@, now, max_weight),
        ),
{
    let mut dispute = match get_dispute(contract, dispute_id) {
        Ok(dispute) => dispute,
        Err(error) => {
            return Err(error);
        },
    };
    match dispute.cast_ballot(env, voter, ballot.into_anonymous(), now, max_weight) {
        Err(error) => Err(error),
        Ok(()) => {
            proof {
                lemma_update_keeps_valid(old(contract)@, dispute_id, dispute@);
            }
            contract.store_dispute(dispute_id, dispute);
            Ok(())
        },
    }
}

} // verus!
