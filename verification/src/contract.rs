//! The state of the protocol: every record it keeps, by key.

use vstd::prelude::*;
use crate::address::Address;
use crate::config::{AnonymousVoteConfig, ConfigView};
use crate::dispute::{Dispute, DisputeView};
use crate::status::DisputeStatus;
use crate::table::{Key, Table};
use crate::voter::{Voter, VoterView};

verus! {

/// The key of a reward claim: who claimed, and from which dispute.
#[derive(Clone, Copy, Debug, PartialEq, Eq, Structural)]
pub struct ClaimKey {
    pub dispute_id: u32,
    pub voter: Address,
}

impl Key for ClaimKey {
    fn same(&self, other: &Self) -> (same: bool) {
        *self == *other
    }
}

/// The protocol with everything it keeps: its administrator and token, the
/// number of disputes opened so far, and the disputes, voters, balances,
/// voting configurations and reward claims, each by its key.
pub struct ProtocolContract {
    admin: Option<Address>,
    token: Option<Address>,
    dispute_count: u32,
    disputes: Table<u32, Dispute>,
    voters: Table<Address, Voter>,
    balances: Table<Address, i128>,
    configs: Table<u32, AnonymousVoteConfig>,
    claims: Table<ClaimKey, bool>,
}

/// What the protocol keeps.
pub struct ContractView {
    pub admin: Option<Address>,
    pub token: Option<Address>,
    /// The identifier of the dispute opened last; 0 before the first.
    pub dispute_count: u32,
    pub disputes: Map<u32, DisputeView>,
    pub voters: Map<Address, VoterView>,
    pub balances: Map<Address, i128>,
    pub configs: Map<u32, ConfigView>,
    pub claims: Set<ClaimKey>,
}

impl ContractView {
    /// Every dispute is valid, is kept under its own identifier, and was
    /// opened: its identifier is between 1 and the count.
    pub open spec fn disputes_valid(self) -> bool {
        forall|id: u32| #[trigger]
            self.disputes.contains_key(id) ==> {
                &&& self.disputes[id].wf()
                &&& self.disputes[id].dispute_id == id
                &&& 1 <= id <= self.dispute_count
            }
    }

    /// Every voter is kept under its own address.
    pub open spec fn voters_valid(self) -> bool {
        forall|who: Address| #[trigger]
            self.voters.contains_key(who) ==> self.voters[who].address == who
    }

    /// Every claim was made on a dispute that somebody won.
    pub open spec fn claims_valid(self) -> bool {
        forall|claim: ClaimKey| #[trigger]
            self.claims.contains(claim) ==> {
                &&& self.disputes.contains_key(claim.dispute_id)
                &&& self.disputes[claim.dispute_id].dispute_status != DisputeStatus::OPEN
                &&& self.disputes[claim.dispute_id].dispute_status != DisputeStatus::ABSTAIN
            }
    }

    /// What holds of the protocol in every state.
    pub open spec fn wf(self) -> bool {
        &&& self.disputes_valid()
        &&& self.voters_valid()
        &&& self.claims_valid()
    }
}

/// The balance kept for `who`: nothing kept is a balance of 0.
pub open spec fn balance_of(balances: Map<Address, i128>, who: Address) -> i128 {
    if balances.contains_key(who) {
        balances[who]
    } else {
        0
    }
}

/// The state before anything was kept.
pub open spec fn initial_state() -> ContractView {
    ContractView {
        admin: None,
        token: None,
        dispute_count: 0,
        disputes: Map::empty(),
        voters: Map::empty(),
        balances: Map::empty(),
        configs: Map::empty(),
        claims: Set::empty(),
    }
}

impl View for ProtocolContract {
    type V = ContractView;

    closed spec fn view(&self) -> ContractView {
        ContractView {
            admin: self.admin,
            token: self.token,
            dispute_count: self.dispute_count,
            disputes: self.disputes@,
            voters: self.voters@,
            balances: self.balances@,
            configs: self.configs@,
            claims: self.claims@.dom(),
        }
    }
}

impl ProtocolContract {
    /// Each table keeps one entry per key.
    pub closed spec fn tables_valid(&self) -> bool {
        &&& self.disputes.wf()
        &&& self.voters.wf()
        &&& self.balances.wf()
        &&& self.configs.wf()
        &&& self.claims.wf()
    }

    /// What holds of the protocol in every state.
    pub open spec fn wf(&self) -> bool {
        self.tables_valid() && self@.wf()
    }

    /// The protocol before anything was kept.
    pub fn new() -> (contract: ProtocolContract)
        ensures
            contract.wf(),
            contract@ == initial_state(),
    {
        let contract = ProtocolContract {
            admin: None,
            token: None,
            dispute_count: 0,
            disputes: Table::new(),
            voters: Table::new(),
            balances: Table::new(),
            configs: Table::new(),
            claims: Table::new(),
        };
        assert(contract@.claims =~= Set::empty());
        contract
    }

    /// The administrator, if one was set.
    pub fn admin(&self) -> (admin: Option<Address>)
        ensures
            admin == self@.admin,
    {
        self.admin
    }

    /// The token rewards are paid in, if one was set.
    pub fn token(&self) -> (token: Option<Address>)
        ensures
            token == self@.token,
    {
        self.token
    }

    /// The identifier of the dispute opened last; 0 before the first.
    pub fn dispute_count(&self) -> (count: u32)
        ensures
            count == self@.dispute_count,
    {
        self.dispute_count
    }

    /// The dispute kept under `dispute_id`, if there is one.
    pub fn dispute(&self, dispute_id: u32) -> (found: Option<&Dispute>)
        requires
            self.tables_valid(),
        ensures
            match found {
                Some(dispute) => self@.disputes.contains_key(dispute_id) && dispute@
                    == self@.disputes[dispute_id],
                None => !self@.disputes.contains_key(dispute_id),
            },
    {
        self.disputes.get(&dispute_id)
    }

    /// The profile kept for `who`, if there is one.
    pub fn voter(&self, who: Address) -> (found: Option<&Voter>)
        requires
            self.tables_valid(),
        ensures
            match found {
                Some(voter) => self@.voters.contains_key(who) && voter@ == self@.voters[who],
                None => !self@.voters.contains_key(who),
            },
    {
        self.voters.get(&who)
    }

    /// The balance kept for `who`.
    pub fn balance(&self, who: Address) -> (balance: i128)
        requires
            self.tables_valid(),
        ensures
            balance == balance_of(self@.balances, who),
    {
        match self.balances.get(&who) {
            Some(balance) => *balance,
            None => 0,
        }
    }

    /// The voting configuration kept for `project_id`, if there is one.
    pub fn config(&self, project_id: u32) -> (found: Option<&AnonymousVoteConfig>)
        requires
            self.tables_valid(),
        ensures
            match found {
                Some(config) => self@.configs.contains_key(project_id) && config@
                    == self@.configs[project_id],
                None => !self@.configs.contains_key(project_id),
            },
    {
        self.configs.get(&project_id)
    }

    /// Whether `voter` has claimed its reward from the dispute.
    pub fn claimed(&self, dispute_id: u32, voter: Address) -> (claimed: bool)
        requires
            self.tables_valid(),
        ensures
            claimed == self@.claims.contains(ClaimKey { dispute_id, voter }),
    {
        self.claims.has(&ClaimKey { dispute_id, voter })
    }

    /// Keeps `admin` as the administrator.
    pub(crate) fn store_admin(&mut self, admin: Address)
        requires
            old(self).tables_valid(),
        ensures
            final(self).tables_valid(),
            final(self)@ == (ContractView { admin: Some(admin), ..old(self)@ }),
    {
        self.admin = Some(admin);
    }

    /// Keeps `token` as the token rewards are paid in.
    pub(crate) fn store_token(&mut self, token: Address)
        requires
            old(self).tables_valid(),
        ensures
            final(self).tables_valid(),
            final(self)@ == (ContractView { token: Some(token), ..old(self)@ }),
    {
        self.token = Some(token);
    }

    /// Keeps `count` as the identifier of the dispute opened last.
    pub(crate) fn store_dispute_count(&mut self, count: u32)
        requires
            old(self).tables_valid(),
        ensures
            final(self).tables_valid(),
            final(self)@ == (ContractView { dispute_count: count, ..old(self)@ }),
    {
        self.dispute_count = count;
    }

    /// Keeps `dispute` under `dispute_id`.
    pub(crate) fn store_dispute(&mut self, dispute_id: u32, dispute: Dispute)
        requires
            old(self).tables_valid(),
        ensures
            final(self).tables_valid(),
            final(self)@ == (ContractView {
                disputes: old(self)@.disputes.insert(dispute_id, dispute@),
                ..old(self)@
            }),
    {
        self.disputes.set(dispute_id, dispute);
    }

    /// Keeps `voter` as the profile of `who`.
    pub(crate) fn store_voter(&mut self, who: Address, voter: Voter)
        requires
            old(self).tables_valid(),
        ensures
            final(self).tables_valid(),
            final(self)@ == (ContractView {
                voters: old(self)@.voters.insert(who, voter@),
                ..old(self)@
            }),
    {
        self.voters.set(who, voter);
    }

    /// Keeps `amount` as the balance of `who`.
    pub(crate) fn store_balance(&mut self, who: Address, amount: i128)
        requires
            old(self).tables_valid(),
        ensures
            final(self).tables_valid(),
            final(self)@ == (ContractView {
                balances: old(self)@.balances.insert(who, amount),
                ..old(self)@
            }),
    {
        self.balances.set(who, amount);
    }

    /// Keeps `config` as the voting configuration of `project_id`.
    pub(crate) fn store_config(&mut self, project_id: u32, config: AnonymousVoteConfig)
        requires
            old(self).tables_valid(),
        ensures
            final(self).tables_valid(),
            final(self)@ == (ContractView {
                configs: old(self)@.configs.insert(project_id, config@),
                ..old(self)@
            }),
    {
        self.configs.set(project_id, config);
    }

    /// Keeps the claim of `voter` on the dispute.
    pub(crate) fn store_claim(&mut self, dispute_id: u32, voter: Address)
        requires
            old(self).tables_valid(),
        ensures
            final(self).tables_valid(),
            final(self)@ == (ContractView {
                claims: old(self)@.claims.insert(ClaimKey { dispute_id, voter }),
                ..old(self)@
            }),
    {
        self.claims.set(ClaimKey { dispute_id, voter }, true);
        assert(self.claims@.dom() =~= old(self).claims@.dom().insert(ClaimKey { dispute_id, voter }));
    }
}

} // verus!
