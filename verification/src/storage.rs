//! Reading and writing the records of the protocol one at a time.

use vstd::prelude::*;
use crate::address::Address;
use crate::config::AnonymousVoteConfig;
use crate::contract::{ContractView, ProtocolContract};
use crate::dispute::{Dispute, DisputeView};
use crate::error::Error;
use crate::status::DisputeStatus;
use crate::voter::{can_credit, credited, fresh_voter, Voter, VoterView};

verus! {

/// What the result of an operation on a dispute holds.
pub open spec fn dispute_outcome(result: Result<Dispute, Error>) -> Result<DisputeView, Error> {
    match result {
        Ok(dispute) => Ok(dispute@),
        Err(error) => Err(error),
    }
}

/// The outcome of an operation that returns nothing when it succeeds.
pub open spec fn unit_outcome(outcome: Result<DisputeView, Error>) -> Result<(), Error> {
    match outcome {
        Ok(_) => Ok(()),
        Err(error) => Err(error),
    }
}

/// The state with `dispute` kept under `dispute_id`.
pub open spec fn with_dispute(state: ContractView, dispute_id: u32, dispute: DisputeView) -> ContractView {
    ContractView { disputes: state.disputes.insert(dispute_id, dispute), ..state }
}

/// The state after an operation on the dispute kept under `dispute_id`: the
/// dispute is replaced where the operation succeeded, and nothing has changed
/// where it failed.
pub open spec fn after_update(
    state: ContractView,
    dispute_id: u32,
    outcome: Result<DisputeView, Error>,
) -> ContractView {
    match outcome {
        Ok(dispute) => with_dispute(state, dispute_id, dispute),
        Err(_) => state,
    }
}

/// Replacing a dispute by a valid one with the same identifier keeps the
/// state valid, provided the dispute was open or keeps its status.
pub proof fn lemma_update_keeps_valid(state: ContractView, dispute_id: u32, dispute: DisputeView)
    requires
        state.wf(),
        state.disputes.contains_key(dispute_id),
        dispute.wf(),
        dispute.dispute_id == dispute_id,
        state.disputes[dispute_id].dispute_status == DisputeStatus::OPEN
            || state.disputes[dispute_id].dispute_status == dispute.dispute_status,
    ensures
        with_dispute(state, dispute_id, dispute).wf(),
{
    let after = with_dispute(state, dispute_id, dispute);
    assert forall|id: u32| #[trigger] after.disputes.contains_key(id) implies {
        &&& after.disputes[id].wf()
        &&& after.disputes[id].dispute_id == id
        &&& 1 <= id <= after.dispute_count
    } by {
        if id != dispute_id {
            assert(state.disputes.contains_key(id));
        }
    }
    assert forall|claim| #[trigger] after.claims.contains(claim) implies {
        &&& after.disputes.contains_key(claim.dispute_id)
        &&& after.disputes[claim.dispute_id].dispute_status != DisputeStatus::OPEN
        &&& after.disputes[claim.dispute_id].dispute_status != DisputeStatus::ABSTAIN
    } by {
        assert(state.claims.contains(claim));
    }
}

/// A copy of the dispute kept under `dispute_id`.
pub fn get_dispute(contract: &ProtocolContract, dispute_id: u32) -> (result: Result<Dispute, Error>)
    requires
        contract.wf(),
    ensures
        dispute_outcome(result) == if contract@.disputes.contains_key(dispute_id) {
            Ok::<DisputeView, Error>(contract@.disputes[dispute_id])
        } else {
            Err::<DisputeView, Error>(Error::DisputeNotFound)
        },
        result matches Ok(dispute) ==> dispute.wf() && dispute@.dispute_id == dispute_id,
{
    match contract.dispute(dispute_id) {
        Some(dispute) => Ok(dispute.duplicate()),
        None => Err(Error::DisputeNotFound),
    }
}

/// A copy of the profile kept for `who`.
pub fn get_voter(contract: &ProtocolContract, who: Address) -> (result: Result<Voter, Error>)
    requires
        contract.wf(),
    ensures
        match result {
            Ok(voter) => contract@.voters.contains_key(who) && voter@ == contract@.voters[who],
            Err(error) => !contract@.voters.contains_key(who) && error == Error::UserNotFound,
        },
{
    match contract.voter(who) {
        Some(voter) => Ok(voter.duplicate()),
        None => Err(Error::UserNotFound),
    }
}

/// The voters after `who` became one: somebody who has a profile keeps it,
/// and anybody else gets a fresh one.
pub open spec fn with_voter(voters: Map<Address, VoterView>, who: Address) -> Map<Address, VoterView> {
    if voters.contains_key(who) {
        voters
    } else {
        voters.insert(who, fresh_voter(who))
    }
}

/// Makes `who` a voter. A profile is created the first time only: whoever
/// has one keeps it as it is.
pub fn set_voter(contract: &mut ProtocolContract, who: Address)
    requires
        old(contract).wf(),
    ensures
        final(contract).wf(),
        final(contract)@ == (ContractView {
            voters: with_voter(old(contract)@.voters, who),
            ..old(contract)@
        }),
{
    if contract.voter(who).is_some() {
        return ;
    }
    contract.store_voter(who, Voter::new(who));
    proof {
        let before = old(contract)@;
        let after = contract@;
        assert forall|a: Address| #[trigger] after.voters.contains_key(a) implies after.voters[a].address
            == a by {
            if a != who {
                assert(before.voters.contains_key(a));
            }
        }
    }
}

/// Adds what `voter` earned to its profile and keeps the profile under the
/// voter's address.
pub fn update_voter(
    contract: &mut ProtocolContract,
    voter: Voter,
    balance_delta: i128,
    reputation_delta: u32,
)
    requires
        old(contract).wf(),
        can_credit(voter@, balance_delta, reputation_delta),
    ensures
        final(contract).wf(),
        final(contract)@ == (ContractView {
            voters: old(contract)@.voters.insert(
                voter@.address,
                credited(voter@, balance_delta, reputation_delta),
            ),
            ..old(contract)@
        }),
{
    let mut voter = voter;
    voter.credit(balance_delta, reputation_delta);
    let who = voter.address;
    contract.store_voter(who, voter);
    proof {
        let before = old(contract)@;
        let after = contract@;
        assert forall|a: Address| #[trigger] after.voters.contains_key(a) implies after.voters[a].address
            == a by {
            if a != who {
                assert(before.voters.contains_key(a));
            }
        }
    }
}

/// A copy of the voting configuration kept for `project_id`.
pub fn get_anonymous_voting_config(contract: &ProtocolContract, project_id: u32) -> (result: Result<
    AnonymousVoteConfig,
    Error,
>)
    requires
        contract.wf(),
    ensures
        match result {
            Ok(config) => contract@.configs.contains_key(project_id) && config@
                == contract@.configs[project_id],
            Err(error) => !contract@.configs.contains_key(project_id) && error
                == Error::NoAnonymousVotingConfig,
        },
{
    match contract.config(project_id) {
        Some(config) => Ok(config.duplicate()),
        None => Err(Error::NoAnonymousVotingConfig),
    }
}

/// Whether an administrator was set.
pub fn has_admin(contract: &ProtocolContract) -> (has: bool)
    ensures
        has == contract@.admin is Some,
{
    contract.admin().is_some()
}

/// The administrator.
pub fn read_admin(contract: &ProtocolContract) -> (result: Result<Address, Error>)
    ensures
        result == match contract@.admin {
            Some(admin) => Ok::<Address, Error>(admin),
            None => Err::<Address, Error>(Error::AdminNotFound),
        },
{
    match contract.admin() {
        Some(admin) => Ok(admin),
        None => Err(Error::AdminNotFound),
    }
}

/// The token rewards are paid in.
pub fn get_token(contract: &ProtocolContract) -> (result: Result<Address, Error>)
    ensures
        result == match contract@.token {
            Some(token) => Ok::<Address, Error>(token),
            None => Err::<Address, Error>(Error::ContractNotInitialized),
        },
{
    match contract.token() {
        Some(token) => Ok(token),
        None => Err(Error::ContractNotInitialized),
    }
}

/// Sets the administrator and the token, once.
pub fn initialize(contract: &mut ProtocolContract, admin: Address, token: Address) -> (result:
    Result<(), Error>)
    requires
        old(contract).wf(),
    ensures
        final(contract).wf(),
        match old(contract)@.admin {
            Some(_) => result == Err::<(), Error>(Error::ContractInitialized) && final(contract)@
                == old(contract)@,
            None => result is Ok && final(contract)@ == (ContractView {
                admin: Some(admin),
                token: Some(token),
                ..old(contract)@
            }),
        },
{
    if has_admin(contract) {
        return Err(Error::ContractInitialized);
    }
    contract.store_admin(admin);
    contract.store_token(token);
    Ok(())
}

} // verus!
