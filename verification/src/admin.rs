//! Setting up anonymous voting, and who may act on a dispute.

use vstd::prelude::*;
use crate::address::{contains_address, Address};
use crate::config::{derived_config, AnonymousVoteConfig};
use crate::contract::{ContractView, ProtocolContract};
use crate::dispute::Dispute;
use crate::error::Error;
use crate::storage::{dispute_outcome, get_dispute};

verus! {

/// The state after anonymous voting was set up for `project_id` with
/// `public_key`. Setup happens once: a project that has a configuration keeps
/// it, and a project that has none gets the two derived generators with the
/// key.
pub open spec fn setup_state(state: ContractView, project_id: u32, public_key: Seq<char>) -> ContractView {
    if state.configs.contains_key(project_id) {
        state
    } else {
        ContractView {
            configs: state.configs.insert(project_id, derived_config(public_key)),
            ..state
        }
    }
}

/// Sets up anonymous voting for `project_id`, once: derives the two
/// generators and keeps them with `public_key`. Where the project has a
/// configuration already, nothing changes.
pub fn anonymous_voting_setup(
    env: &soroban_sdk::Env,
    contract: &mut ProtocolContract,
    project_id: u32,
    public_key: String,
)
    requires
        old(contract).wf(),
    ensures
        final(contract).wf(),
        final(contract)@ == setup_state(old(contract)@, project_id, public_key@),
{
    if contract.config(project_id).is_some() {
        return ;
    }
    let config = AnonymousVoteConfig::derive(env, public_key);
    contract.store_config(project_id, config);
}

/// The dispute kept under `project_id`, for a maintainer who is one of its
/// judges, registered or committed.
pub fn auth_maintainers(contract: &ProtocolContract, maintainer: &Address, project_id: u32) -> (result:
    Result<Dispute, Error>)
    requires
        contract.wf(),
    ensures
        dispute_outcome(result) == if !contract@.disputes.contains_key(project_id) {
            Err(Error::InvalidKey)
        } else if !contract@.disputes[project_id].able_to_vote.contains(*maintainer)
            && !contract@.disputes[project_id].voters.contains(*maintainer) {
            Err(Error::UnauthorizedSigner)
        } else {
            Ok(contract@.disputes[project_id])
        },
{
    match get_dispute(contract, project_id) {
        Err(_) => Err(Error::InvalidKey),
        Ok(dispute) => {
            if !contains_address(&dispute.able_to_vote, *maintainer) && !contains_address(
                &dispute.voters,
                *maintainer,
            ) {
                Err(Error::UnauthorizedSigner)
            } else {
                Ok(dispute)
            }
        },
    }
}

} // verus!
