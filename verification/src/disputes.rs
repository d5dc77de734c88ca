//! Opening a dispute, resolving it from the tallies of its anonymous votes,
//! and claiming the reward for having voted.

use vstd::prelude::*;
use crate::address::Address;
use crate::anonymous::{check_proof, tally_proven};
use crate::contract::{ClaimKey, ContractView, ProtocolContract};
use crate::dispute::{opened, Dispute, DisputeView};
use crate::error::Error;
use crate::resolution::{optional_numbers, settled, tally_error};
use crate::reward::{claim_error, CLAIM_BALANCE, CLAIM_REPUTATION};
use crate::status::DisputeStatus;
use crate::storage::{after_update, get_dispute, lemma_update_keeps_valid, update_voter};
use crate::voter::{can_credit, credited};

verus! {

/// The state after a dispute was opened: the count has advanced by one, and
/// the dispute is kept under the new count.
pub open spec fn create_dispute_state(
    state: ContractView,
    project_id: u32,
    creator: Address,
    counterpart: Address,
    proof_text: Seq<char>,
    voting_ends_at: u64,
    called_contract: Address,
    now: u64,
) -> ContractView {
    let dispute_id = (state.dispute_count + 1) as u32;
    ContractView {
        dispute_count: dispute_id,
        disputes: state.disputes.insert(
            dispute_id,
            opened(
                project_id,
                dispute_id,
                creator,
                counterpart,
                proof_text,
                voting_ends_at,
                called_contract,
                now,
            ),
        ),
        ..state
    }
}

/// The identifier of the dispute opened after `count` others.
pub fn next_dispute_id(count: u32) -> (dispute_id: u32)
    requires
        count < u32::MAX,
    ensures
        dispute_id == count + 1,
{
    count + 1
}

/// Opens a dispute between `creator` and `counterpart` at time `now` and
/// returns it. Its identifier is one more than that of the dispute opened
/// before it; the first dispute has the identifier 1.
pub fn create_dispute(
    contract: &mut ProtocolContract,
    project_id: u32,
    creator: Address,
    counterpart: Address,
    proof_text: String,
    voting_ends_at: u64,
    called_contract: Address,
    now: u64,
) -> (result: Result<Dispute, Error>)
    requires
        old(contract).wf(),
        old(contract)@.dispute_count < u32::MAX,
    ensures
        final(contract).wf(),
        final(contract)@ == create_dispute_state(
            old(contract)@,
            project_id,
            creator,
            counterpart,
            proof_text@,
            voting_ends_at,
            called_contract,
            now,
        ),
        result matches Ok(dispute) && dispute@.dispute_id == old(contract)@.dispute_count + 1
            && dispute@ == final(contract)@.disputes[dispute@.dispute_id],
{
    let dispute_id = next_dispute_id(contract.dispute_count());
    contract.store_dispute_count(dispute_id);
    let dispute = Dispute::open(
        project_id,
        dispute_id,
        creator,
        counterpart,
        proof_text,
        voting_ends_at,
        called_contract,
        now,
    );
    contract.store_dispute(dispute_id, dispute.duplicate());
    proof {
        let before = old(contract)@;
        let after = contract@;
        assert(!before.disputes.contains_key(dispute_id));
        assert forall|id: u32| #[trigger] after.disputes.contains_key(id) implies {
            &&& after.disputes[id].wf()
            &&& after.disputes[id].dispute_id == id
            &&& 1 <= id <= after.dispute_count
        } by {
            if id != dispute_id {
                assert(before.disputes.contains_key(id));
            }
        }
        assert forall|claim: ClaimKey| #[trigger] after.claims.contains(claim) implies {
            &&& after.disputes.contains_key(claim.dispute_id)
            &&& after.disputes[claim.dispute_id].dispute_status != DisputeStatus::OPEN
            &&& after.disputes[claim.dispute_id].dispute_status != DisputeStatus::ABSTAIN
        } by {
            assert(before.claims.contains(claim));
            assert(before.disputes.contains_key(claim.dispute_id));
        }
    }
    Ok(dispute)
}

/// What resolving a dispute from `tallies` and `seeds` comes to: the dispute
/// must exist, be open and past its deadline; there must be three tallies and
/// three seeds and a voting configuration for the project; and the tallies
/// must be proven to be those of the votes cast.
pub open spec fn execute_outcome(
    state: ContractView,
    dispute_id: u32,
    tallies: Option<Seq<u128>>,
    seeds: Option<Seq<u128>>,
    now: u64,
) -> Result<DisputeView, Error> {
    if !state.disputes.contains_key(dispute_id) {
        Err(Error::DisputeNotFound)
    } else {
        let dispute = state.disputes[dispute_id];
        match tally_error(dispute, now, tallies, seeds) {
            Some(error) => Err(error),
            None => if !state.configs.contains_key(dispute.project_id) {
                Err(Error::NoAnonymousVotingConfig)
            } else if !tally_proven(
                dispute,
                state.configs[dispute.project_id],
                tallies->0,
                seeds->0,
            ) {
                Err(Error::InvalidProof)
            } else {
                Ok(settled(dispute, tallies->0, now))
            },
        }
    }
}

/// The status an operation on a dispute leaves the dispute in.
pub open spec fn status_outcome(outcome: Result<DisputeView, Error>) -> Result<DisputeStatus, Error> {
    match outcome {
        Ok(dispute) => Ok(dispute.dispute_status),
        Err(error) => Err(error),
    }
}

/// Resolves a dispute from the tallies of its anonymous votes and returns the
/// outcome, or says why not and changes nothing. The tallies are accepted
/// only with the proof that they are those of the votes cast.
pub fn execute(
    env: &soroban_sdk::Env,
    contract: &mut ProtocolContract,
    dispute_id: u32,
    tallies: Option<Vec<u128>>,
    seeds: Option<Vec<u128>>,
    now: u64,
) -> (result: Result<DisputeStatus, Error>)
    requires
        old(contract).wf(),
    ensures
        final(contract).wf(),
        result == status_outcome(
            execute_outcome(
                old(contract)@,
                dispute_id,
                optional_numbers(tallies),
                optional_numbers(seeds),
                now,
            ),
        ),
        final(contract)@ == after_update(
            old(contract)@,
            dispute_id,
            execute_outcome(
                old(contract)@,
                dispute_id,
                optional_numbers(tallies),
                optional_numbers(seeds),
                now,
            ),
        ),
{
    let mut dispute = match get_dispute(contract, dispute_id) {
        Ok(dispute) => dispute,
        Err(error) => {
            return Err(error);
        },
    };
    match dispute.ready_for_tally(now, &tallies, &seeds) {
        Err(error) => {
            return Err(error);
        },
        Ok(()) => {},
    }
    let proven = match (&tallies, &seeds) {
        (Some(t), Some(s)) => {
            let config = match contract.config(dispute.project_id) {
                Some(config) => config,
                None => {
                    return Err(Error::NoAnonymousVotingConfig);
                },
            };
            match check_proof(env, &dispute, config, t, s) {
                Ok(proven) => proven,
                Err(error) => {
                    return Err(error);
                },
            }
        },
        _ => {
            return Err(Error::TallySeedError);
        },
    };
    match dispute.settle(now, &tallies, &seeds, proven) {
        Err(error) => Err(error),
        Ok(status) => {
            proof {
                lemma_update_keeps_valid(old(contract)@, dispute_id, dispute@);
            }
            contract.store_dispute(dispute_id, dispute);
            Ok(status)
        },
    }
}

/// Why `voter` earns nothing from the dispute, if it does not.
pub open spec fn claim_reward_error(state: ContractView, voter: Address, dispute_id: u32) -> Option<
    Error,
> {
    if !state.disputes.contains_key(dispute_id) {
        Some(Error::DisputeNotFound)
    } else {
        claim_error(
            state.disputes[dispute_id],
            voter,
            state.claims.contains(ClaimKey { dispute_id, voter }),
            state.voters.contains_key(voter),
        )
    }
}

/// The state after `voter` claimed its reward from the dispute: where the
/// claim succeeded, the voter's profile holds what it earned and the claim is
/// kept.
pub open spec fn claim_reward_state(state: ContractView, voter: Address, dispute_id: u32) -> ContractView {
    match claim_reward_error(state, voter, dispute_id) {
        Some(_) => state,
        None => ContractView {
            voters: state.voters.insert(
                voter,
                credited(state.voters[voter], CLAIM_BALANCE, CLAIM_REPUTATION),
            ),
            claims: state.claims.insert(ClaimKey { dispute_id, voter }),
            ..state
        },
    }
}

/// Where the claim of `voter` on the dispute is not refused, the voter's
/// profile has room for the reward. Nothing is asked where the claim is
/// refused.
pub open spec fn claim_fits(state: ContractView, voter: Address, dispute_id: u32) -> bool {
    claim_reward_error(state, voter, dispute_id) is None ==> can_credit(
        state.voters[voter],
        CLAIM_BALANCE,
        CLAIM_REPUTATION,
    )
}

/// Pays `voter` its reward for having voted in a dispute that somebody won,
/// once, or says why not and changes nothing.
pub fn claim_reward(contract: &mut ProtocolContract, voter: Address, dispute_id: u32) -> (result:
    Result<(), Error>)
    requires
        old(contract).wf(),
        claim_fits(old(contract)@, voter, dispute_id),
    ensures
        final(contract).wf(),
        result == match claim_reward_error(old(contract)@, voter, dispute_id) {
            Some(error) => Err::<(), Error>(error),
            None => Ok::<(), Error>(()),
        },
        final(contract)@ == claim_reward_state(old(contract)@, voter, dispute_id),
{
    let claimed = contract.claimed(dispute_id, voter);
    let profile = match contract.voter(voter) {
        Some(profile) => Some(profile.duplicate()),
        None => None,
    };
    match contract.dispute(dispute_id) {
        None => {
            return Err(Error::DisputeNotFound);
        },
        Some(dispute) => {
            match dispute.claim_check(voter, claimed, profile.is_some()) {
                Err(error) => {
                    return Err(error);
                },
                Ok(()) => {},
            }
        },
    }
    match profile {
        None => Err(Error::UserNotFound),
        Some(profile) => {
            update_voter(contract, profile, CLAIM_BALANCE, CLAIM_REPUTATION);
            contract.store_claim(dispute_id, voter);
            proof {
                let before = old(contract)@;
                let after = contract@;
                assert(after.voters =~= before.voters.insert(
                    voter,
                    credited(before.voters[voter], CLAIM_BALANCE, CLAIM_REPUTATION),
                ));
                assert forall|claim: ClaimKey| #[trigger] after.claims.contains(claim) implies {
                    &&& after.disputes.contains_key(claim.dispute_id)
                    &&& after.disputes[claim.dispute_id].dispute_status != DisputeStatus::OPEN
                    &&& after.disputes[claim.dispute_id].dispute_status != DisputeStatus::ABSTAIN
                } by {
                    if claim != (ClaimKey { dispute_id, voter }) {
                        assert(before.claims.contains(claim));
                    }
                }
            }
            Ok(())
        },
    }
}

} // verus!
