//! Disputes about the proposals of a governor.

use vstd::prelude::*;
use crate::address::Address;
use crate::contract::ProtocolContract;
use crate::disputes::{create_dispute, create_dispute_state};

verus! {

/// A day, in seconds.
pub const TIME_ONE_DAY: u64 = 86400;

/// How long the judges of a dispute about a proposal may vote: seven days.
pub const PROPOSAL_VOTING_TIME: u64 = 604800;

/// Why no dispute is opened about a proposal.
#[derive(Clone, Copy, Debug, PartialEq, Eq, Structural)]
pub enum GovernorError {
    /// There is no such proposal.
    NonExistentProposalError,
    /// The governor does not know the protocol.
    InvalidKey,
}

/// Opens a dispute about a proposal at time `now` and returns its identifier.
/// The dispute is between `creator`, who disputes the proposal, and whoever
/// made the proposal; the judges have seven days to vote.
///
/// `proposal_creator` is who made the proposal, if there is such a proposal;
/// `protocol_address` is the address of the protocol as the governor knows
/// it, if it does; `this` is the address of the governor, which the dispute
/// names as the contract that opened it.
pub fn create_dispute_for_proposal(
    protocol: &mut ProtocolContract,
    this: Address,
    creator: Address,
    proposal_id: u32,
    proposal_creator: Option<Address>,
    protocol_address: Option<Address>,
    proof_text: String,
    now: u64,
) -> (result: Result<u32, GovernorError>)
    requires
        old(protocol).wf(),
        proposal_creator is Some && protocol_address is Some ==> {
            &&& old(protocol)@.dispute_count < u32::MAX
            &&& now + PROPOSAL_VOTING_TIME <= u64::MAX
        },
    ensures
        final(protocol).wf(),
        match (proposal_creator, protocol_address) {
            (None, _) => {
                &&& result == Err::<u32, GovernorError>(GovernorError::NonExistentProposalError)
                &&& final(protocol)@ == old(protocol)@
            },
            (Some(_), None) => {
                &&& result == Err::<u32, GovernorError>(GovernorError::InvalidKey)
                &&& final(protocol)@ == old(protocol)@
            },
            (Some(counterpart), Some(_)) => {
                &&& result == Ok::<u32, GovernorError>((old(protocol)@.dispute_count + 1) as u32)
                &&& final(protocol)@ == create_dispute_state(
                    old(protocol)@,
                    proposal_id,
                    creator,
                    counterpart,
                    proof_text@,
                    (now + PROPOSAL_VOTING_TIME) as u64,
                    this,
                    now,
                )
            },
        },
{
    let counterpart = match proposal_creator {
        Some(counterpart) => counterpart,
        None => {
            return Err(GovernorError::NonExistentProposalError);
        },
    };
    if protocol_address.is_none() {
        return Err(GovernorError::InvalidKey);
    }
    let voting_ends_at = now + PROPOSAL_VOTING_TIME;
    let outcome = create_dispute(
        protocol,
        proposal_id,
        creator,
        counterpart,
        proof_text,
        voting_ends_at,
        this,
        now,
    );
    match outcome {
        Ok(dispute) => Ok(dispute.dispute_id),
        Err(_) => Err(GovernorError::InvalidKey),
    }
}

} // verus!
