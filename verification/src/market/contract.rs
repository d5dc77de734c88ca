//! The state of the market and the operations on it.

use vstd::prelude::*;
use crate::address::Address;
use crate::contract::{balance_of, ProtocolContract};
use crate::dispute::optional_text;
use crate::disputes::create_dispute_state;
use crate::market::error::Error;
use crate::market::service::{
    accepted,
    dispute_error,
    disputed,
    max_days,
    milestone_approved,
    milestone_error,
    offered,
    with_milestone,
    Service,
    ServiceStatus,
    ServiceView,
    DISPUTE_VOTING_TIME,
};
use crate::market::user::{new_user, User, UserView};
use crate::table::Table;

verus! {

/// The market with everything it keeps: its administrator and token, the
/// protocol that resolves its disputes, and the users, services and balances,
/// each by its key.
pub struct Contract {
    admin: Option<Address>,
    token: Option<Address>,
    lance_protocol_contract: Option<Address>,
    users: Table<Address, User>,
    services: Table<u32, Service>,
    balances: Table<Address, i128>,
}

/// What the market keeps.
pub struct MarketView {
    pub admin: Option<Address>,
    pub token: Option<Address>,
    pub lance_protocol_contract: Option<Address>,
    pub users: Map<Address, UserView>,
    pub services: Map<u32, ServiceView>,
    pub balances: Map<Address, i128>,
}

/// The market before anything was kept.
pub open spec fn empty_market() -> MarketView {
    MarketView {
        admin: None,
        token: None,
        lance_protocol_contract: None,
        users: Map::empty(),
        services: Map::empty(),
        balances: Map::empty(),
    }
}

/// What the result of an operation on a service holds.
pub open spec fn service_outcome(result: Result<Service, Error>) -> Result<ServiceView, Error> {
    match result {
        Ok(service) => Ok(service@),
        Err(error) => Err(error),
    }
}

/// The market with `service` kept under `id`.
pub open spec fn with_service(market: MarketView, id: u32, service: ServiceView) -> MarketView {
    MarketView { services: market.services.insert(id, service), ..market }
}

/// The market with `amount` added to the balance of `who`.
pub open spec fn with_payment(market: MarketView, who: Address, amount: i128) -> MarketView {
    MarketView {
        balances: market.balances.insert(
            who,
            (balance_of(market.balances, who) + amount) as i128,
        ),
        ..market
    }
}

/// The balance of `who` has room for `amount`.
pub open spec fn payment_fits(market: MarketView, who: Address, amount: i128) -> bool {
    i128::MIN <= balance_of(market.balances, who) + amount <= i128::MAX
}

impl View for Contract {
    type V = MarketView;

    closed spec fn view(&self) -> MarketView {
        MarketView {
            admin: self.admin,
            token: self.token,
            lance_protocol_contract: self.lance_protocol_contract,
            users: self.users@,
            services: self.services@,
            balances: self.balances@,
        }
    }
}

impl Contract {
    /// Each table keeps one entry per key.
    pub closed spec fn wf(&self) -> bool {
        &&& self.users.wf()
        &&& self.services.wf()
        &&& self.balances.wf()
    }

    /// The market before anything was kept.
    pub fn new() -> (market: Contract)
        ensures
            market.wf(),
            market@ == empty_market(),
    {
        Contract {
            admin: None,
            token: None,
            lance_protocol_contract: None,
            users: Table::new(),
            services: Table::new(),
            balances: Table::new(),
        }
    }

    /// Keeps `protocol` as the address of the protocol that resolves the
    /// disputes of the market.
    pub fn set_protocol(&mut self, protocol: Address)
        requires
            old(self).wf(),
        ensures
            final(self).wf(),
            final(self)@ == (MarketView { lance_protocol_contract: Some(protocol), ..old(self)@ }),
    {
        self.lance_protocol_contract = Some(protocol);
    }
}

/// Sets the administrator and the token, once.
pub fn initialize(market: &mut Contract, admin: Address, token: Address) -> (result: Result<
    (),
    Error,
>)
    requires
        old(market).wf(),
    ensures
        final(market).wf(),
        match old(market)@.admin {
            Some(_) => result == Err::<(), Error>(Error::ContractInitialized) && final(market)@
                == old(market)@,
            None => result is Ok && final(market)@ == (MarketView {
                admin: Some(admin),
                token: Some(token),
                ..old(market)@
            }),
        },
{
    if market.admin.is_some() {
        return Err(Error::ContractInitialized);
    }
    market.admin = Some(admin);
    market.token = Some(token);
    Ok(())
}

/// Makes `user` a user of the market with a fresh record, in place of the
/// record it had, if any.
pub fn add_user(
    market: &mut Contract,
    user: Address,
    is_employee: bool,
    is_employer: bool,
    is_judge: bool,
    personal_data: Option<String>,
) -> (result: Result<(), Error>)
    requires
        old(market).wf(),
    ensures
        final(market).wf(),
        result is Ok,
        final(market)@ == (MarketView {
            users: old(market)@.users.insert(
                user,
                new_user(user, is_employee, is_employer, is_judge, optional_text(personal_data)),
            ),
            ..old(market)@
        }),
{
    let record = User::new(user, is_employee, is_employer, is_judge, personal_data);
    market.users.set(user, record);
    Ok(())
}

/// A copy of the record kept for `user`.
pub fn get_user(market: &Contract, user: Address) -> (result: Result<User, Error>)
    requires
        market.wf(),
    ensures
        match result {
            Ok(record) => market@.users.contains_key(user) && record@ == market@.users[user],
            Err(error) => !market@.users.contains_key(user) && error == Error::UserNotFound,
        },
{
    match market.users.get(&user) {
        Some(record) => Ok(record.duplicate()),
        None => Err(Error::UserNotFound),
    }
}

/// Records that `delegator` has delegated its vote to the judge.
pub fn vote_delegate(market: &mut Contract, judge: Address, delegator: Address) -> (result: Result<
    (),
    Error,
>)
    requires
        old(market).wf(),
    ensures
        final(market).wf(),
        if old(market)@.users.contains_key(judge) {
            let record = old(market)@.users[judge];
            result is Ok && final(market)@ == (MarketView {
                users: old(market)@.users.insert(
                    judge,
                    UserView { delegates: record.delegates.push(delegator), ..record },
                ),
                ..old(market)@
            })
        } else {
            result == Err::<(), Error>(Error::UserNotFound) && final(market)@ == old(market)@
        },
{
    let mut record = match get_user(market, judge) {
        Ok(record) => record,
        Err(error) => {
            return Err(error);
        },
    };
    record.delegates.push(delegator);
    market.users.set(judge, record);
    Ok(())
}

/// Keeps `service` under `service_id`.
pub fn set_service(market: &mut Contract, service_id: u32, service: Service)
    requires
        old(market).wf(),
    ensures
        final(market).wf(),
        final(market)@ == with_service(old(market)@, service_id, service@),
{
    market.services.set(service_id, service);
}

/// A copy of the service kept under `service_id`.
pub fn get_service(market: &Contract, service_id: u32) -> (result: Result<Service, Error>)
    requires
        market.wf(),
    ensures
        service_outcome(result) == if market@.services.contains_key(service_id) {
            Ok::<ServiceView, Error>(market@.services[service_id])
        } else {
            Err::<ServiceView, Error>(Error::ServiceNotFound)
        },
{
    match market.services.get(&service_id) {
        Some(service) => Ok(service.duplicate()),
        None => Err(Error::ServiceNotFound),
    }
}

/// Takes the service kept under `service_id` out of the market.
pub fn remove_service(market: &mut Contract, service_id: u32)
    requires
        old(market).wf(),
    ensures
        final(market).wf(),
        final(market)@ == (MarketView {
            services: old(market)@.services.remove(service_id),
            ..old(market)@
        }),
{
    market.services.remove(&service_id);
}

/// Keeps `amount` as the balance of `user`.
pub fn set_balance(market: &mut Contract, user: &Address, amount: i128)
    requires
        old(market).wf(),
    ensures
        final(market).wf(),
        final(market)@ == (MarketView {
            balances: old(market)@.balances.insert(*user, amount),
            ..old(market)@
        }),
{
    market.balances.set(*user, amount);
}

/// The balance of `user`; 0 for somebody who was never paid.
pub fn get_balance(market: &Contract, user: &Address) -> (balance: i128)
    requires
        market.wf(),
    ensures
        balance == balance_of(market@.balances, *user),
{
    match market.balances.get(user) {
        Some(balance) => *balance,
        None => 0,
    }
}

/// The employee `creator` offers `employer` a service with a first milestone
/// of `duration` days, at least one. The service is kept under `id`, in place
/// of any service kept there.
pub fn create_service(
    market: &mut Contract,
    creator: Address,
    employer: Address,
    id: u32,
    duration: u64,
    metadata: Option<String>,
    milestone_payment: i128,
) -> (result: Result<Service, Error>)
    requires
        old(market).wf(),
        duration <= max_days(),
    ensures
        final(market).wf(),
        service_outcome(result) == if duration < 1 {
            Err::<ServiceView, Error>(Error::InvalidDuration)
        } else {
            Ok::<ServiceView, Error>(
                offered(id, creator, employer, duration, optional_text(metadata), milestone_payment),
            )
        },
        final(market)@ == match service_outcome(result) {
            Ok(service) => with_service(old(market)@, id, service),
            Err(_) => old(market)@,
        },
{
    match Service::offer(id, creator, employer, duration, metadata, milestone_payment) {
        Err(error) => Err(error),
        Ok(service) => {
            set_service(market, id, service.duplicate());
            Ok(service)
        },
    }
}

/// What accepting a service comes to: the service must exist, the employer
/// be its own, and there must be a token to pay the milestone in.
pub open spec fn accept_service_outcome(market: MarketView, employer: Address, id: u32, now: u64) -> Result<
    ServiceView,
    Error,
> {
    if !market.services.contains_key(id) {
        Err(Error::ServiceNotFound)
    } else if market.services[id].employer != employer {
        Err(Error::NotAuthorized)
    } else if market.token is None {
        Err(Error::ContractNotInitialized)
    } else {
        Ok(accepted(market.services[id], now))
    }
}

/// The employer accepts the service at time `now`. The service returned says
/// what the employer pays in for the milestone.
pub fn accept_service(market: &mut Contract, employer: Address, id: u32, now: u64) -> (result: Result<
    Service,
    Error,
>)
    requires
        old(market).wf(),
    ensures
        final(market).wf(),
        service_outcome(result) == accept_service_outcome(old(market)@, employer, id, now),
        final(market)@ == match service_outcome(result) {
            Ok(service) => with_service(old(market)@, id, service),
            Err(_) => old(market)@,
        },
{
    let mut service = match get_service(market, id) {
        Ok(service) => service,
        Err(error) => {
            return Err(error);
        },
    };
    match service.accept(employer, now) {
        Err(error) => {
            return Err(error);
        },
        Ok(()) => {},
    }
    if market.token.is_none() {
        return Err(Error::ContractNotInitialized);
    }
    set_service(market, id, service.duplicate());
    Ok(service)
}

/// What approving the milestone of a service comes to.
pub open spec fn approve_milestone_outcome(market: MarketView, employer: Address, id: u32) -> Result<
    ServiceView,
    Error,
> {
    if !market.services.contains_key(id) {
        Err(Error::ServiceNotFound)
    } else if market.services[id].employer != employer {
        Err(Error::NotAuthorized)
    } else {
        Ok(milestone_approved(market.services[id]))
    }
}

/// Where the employer may approve the service kept under `id`, the balance
/// of the employee has room for the payment. Nothing is asked where the
/// approval is refused.
pub open spec fn approval_fits(market: MarketView, employer: Address, id: u32) -> bool {
    approve_service_outcome(market, employer, id) is Ok ==> payment_fits(
        market,
        market.services[id].employee,
        market.services[id].milestone_payment,
    )
}

/// Where the employer may approve the milestone of the service kept under
/// `id`, the payment fits as above and the milestones are counted by a 32-bit
/// number.
pub open spec fn milestone_fits(market: MarketView, employer: Address, id: u32) -> bool {
    &&& approval_fits(market, employer, id)
    &&& approve_service_outcome(market, employer, id) is Ok ==> market.services[id].current_milestone
        < u32::MAX
}

/// The employer approves the milestone: the payment goes to the balance of
/// the employee, and the next milestone is awaited.
pub fn approve_milestone(market: &mut Contract, employer: Address, id: u32) -> (result: Result<
    Service,
    Error,
>)
    requires
        old(market).wf(),
        milestone_fits(old(market)@, employer, id),
    ensures
        final(market).wf(),
        service_outcome(result) == approve_milestone_outcome(old(market)@, employer, id),
        final(market)@ == match service_outcome(result) {
            Ok(service) => with_service(
                with_payment(
                    old(market)@,
                    service.employee,
                    old(market)@.services[id].milestone_payment,
                ),
                id,
                service,
            ),
            Err(_) => old(market)@,
        },
{
    let mut service = match get_service(market, id) {
        Ok(service) => service,
        Err(error) => {
            return Err(error);
        },
    };
    match service.approve_milestone(employer) {
        Err(error) => {
            return Err(error);
        },
        Ok(()) => {},
    }
    let balance = get_balance(market, &service.employee);
    set_balance(market, &service.employee, balance + service.milestone_payment);
    set_service(market, id, service.duplicate());
    Ok(service)
}

/// What approving a whole service comes to.
pub open spec fn approve_service_outcome(market: MarketView, employer: Address, id: u32) -> Result<
    ServiceView,
    Error,
> {
    if !market.services.contains_key(id) {
        Err(Error::ServiceNotFound)
    } else if market.services[id].employer != employer {
        Err(Error::NotAuthorized)
    } else {
        Ok(market.services[id])
    }
}

/// The employer approves the whole service: the payment goes to the balance
/// of the employee, and the service leaves the market. Returns the service as
/// it was.
pub fn approve_service(market: &mut Contract, employer: Address, id: u32) -> (result: Result<
    Service,
    Error,
>)
    requires
        old(market).wf(),
        approval_fits(old(market)@, employer, id),
    ensures
        final(market).wf(),
        service_outcome(result) == approve_service_outcome(old(market)@, employer, id),
        final(market)@ == match service_outcome(result) {
            Ok(service) => {
                let paid = with_payment(old(market)@, service.employee, service.milestone_payment);
                MarketView { services: paid.services.remove(id), ..paid }
            },
            Err(_) => old(market)@,
        },
{
    let service = match get_service(market, id) {
        Ok(service) => service,
        Err(error) => {
            return Err(error);
        },
    };
    if service.employer != employer {
        return Err(Error::NotAuthorized);
    }
    let balance = get_balance(market, &service.employee);
    set_balance(market, &service.employee, balance + service.milestone_payment);
    remove_service(market, id);
    Ok(service)
}

/// What adding a milestone to a service comes to.
pub open spec fn add_milestone_outcome(
    market: MarketView,
    employee: Address,
    id: u32,
    duration: u64,
    payment: i128,
) -> Result<ServiceView, Error> {
    if !market.services.contains_key(id) {
        Err(Error::ServiceNotFound)
    } else {
        match milestone_error(market.services[id], employee) {
            Some(error) => Err(error),
            None => Ok(with_milestone(market.services[id], duration, payment)),
        }
    }
}

/// The employee adds a milestone of `duration` days and `payment` to a
/// service whose milestone was approved.
pub fn add_milestone(
    market: &mut Contract,
    employee: Address,
    id: u32,
    duration: u64,
    payment: i128,
) -> (result: Result<Service, Error>)
    requires
        old(market).wf(),
        add_milestone_outcome(old(market)@, employee, id, duration, payment) is Ok ==> duration
            <= max_days(),
    ensures
        final(market).wf(),
        service_outcome(result) == add_milestone_outcome(
            old(market)@,
            employee,
            id,
            duration,
            payment,
        ),
        final(market)@ == match service_outcome(result) {
            Ok(service) => with_service(old(market)@, id, service),
            Err(_) => old(market)@,
        },
{
    let mut service = match get_service(market, id) {
        Ok(service) => service,
        Err(error) => {
            return Err(error);
        },
    };
    match service.add_milestone(employee, duration, payment) {
        Err(error) => Err(error),
        Ok(()) => {
            set_service(market, id, service.duplicate());
            Ok(service)
        },
    }
}

/// What redeeming the balance of `employee` comes to: the balance, unless
/// there is none, or no token to pay it in.
pub open spec fn redeem_outcome(market: MarketView, employee: Address) -> Result<i128, Error> {
    if balance_of(market.balances, employee) == 0 {
        Err(Error::BalanceIsZero)
    } else if market.token is None {
        Err(Error::ContractNotInitialized)
    } else {
        Ok(balance_of(market.balances, employee))
    }
}

/// Takes the whole balance of `employee` out and returns it, to be paid in
/// the market's token, or says why not and changes nothing.
pub fn redeem(market: &mut Contract, employee: Address) -> (result: Result<i128, Error>)
    requires
        old(market).wf(),
    ensures
        final(market).wf(),
        result == redeem_outcome(old(market)@, employee),
        final(market)@ == if result is Ok {
            MarketView { balances: old(market)@.balances.insert(employee, 0), ..old(market)@ }
        } else {
            old(market)@
        },
{
    let balance = get_balance(market, &employee);
    if balance == 0 {
        return Err(Error::BalanceIsZero);
    }
    if market.token.is_none() {
        return Err(Error::ContractNotInitialized);
    }
    set_balance(market, &employee, 0);
    Ok(balance)
}

/// Why the service is not taken to the judges, if it is not: the service
/// must exist, its employer dispute it while it is accepted, and the market
/// know the protocol.
pub open spec fn create_dispute_error(market: MarketView, creator: Address, service_id: u32) -> Option<
    Error,
> {
    if !market.services.contains_key(service_id) {
        Some(Error::ServiceNotFound)
    } else {
        match dispute_error(market.services[service_id], creator) {
            Some(error) => Some(error),
            None => if market.lance_protocol_contract is None {
                Some(Error::InvalidKey)
            } else {
                None
            },
        }
    }
}

/// The employer takes a service to the judges at time `now`: a dispute is
/// opened at the protocol between the employer, as its creator, and the
/// employee, with seven days to vote, and the service is marked as disputed.
/// Returns the identifier of the dispute. `this` is the address of the
/// market, which the dispute names as the contract that opened it.
pub fn create_dispute(
    market: &mut Contract,
    protocol: &mut ProtocolContract,
    this: Address,
    creator: Address,
    service_id: u32,
    proof_text: String,
    now: u64,
) -> (result: Result<u32, Error>)
    requires
        old(market).wf(),
        old(protocol).wf(),
        create_dispute_error(old(market)@, creator, service_id) is None ==> {
            &&& old(protocol)@.dispute_count < u32::MAX
            &&& now + DISPUTE_VOTING_TIME <= u64::MAX
        },
    ensures
        final(market).wf(),
        final(protocol).wf(),
        match create_dispute_error(old(market)@, creator, service_id) {
            Some(error) => {
                &&& result == Err::<u32, Error>(error)
                &&& final(market)@ == old(market)@
                &&& final(protocol)@ == old(protocol)@
            },
            None => {
                let service = old(market)@.services[service_id];
                &&& result == Ok::<u32, Error>((old(protocol)@.dispute_count + 1) as u32)
                &&& final(market)@ == with_service(old(market)@, service_id, disputed(service))
                &&& final(protocol)@ == create_dispute_state(
                    old(protocol)@,
                    service_id,
                    service.employer,
                    service.employee,
                    proof_text@,
                    (now + DISPUTE_VOTING_TIME) as u64,
                    this,
                    now,
                )
            },
        },
{
    let mut service = match get_service(market, service_id) {
        Ok(service) => service,
        Err(error) => {
            return Err(error);
        },
    };
    let employee = service.employee;
    let employer = service.employer;
    match service.dispute(creator) {
        Err(error) => {
            return Err(error);
        },
        Ok(()) => {},
    }
    if market.lance_protocol_contract.is_none() {
        return Err(Error::InvalidKey);
    }
    let voting_ends_at = now + DISPUTE_VOTING_TIME;
    let outcome = crate::disputes::create_dispute(
        protocol,
        service_id,
        employer,
        employee,
        proof_text,
        voting_ends_at,
        this,
        now,
    );
    set_service(market, service_id, service);
    match outcome {
        Ok(dispute) => Ok(dispute.dispute_id),
        Err(_) => Err(Error::DisputeNotFound),
    }
}

/// Checks that the employee of a disputed service may answer the dispute:
/// the service must exist and be disputed, the market know the protocol, the
/// dispute exist, and the employee be its counterpart.
pub fn update_dispute(
    market: &Contract,
    protocol: &ProtocolContract,
    service_id: u32,
    dispute_id: u32,
) -> (result: Result<(), Error>)
    requires
        market.wf(),
        protocol.wf(),
    ensures
        result == if !market@.services.contains_key(service_id) {
            Err::<(), Error>(Error::ServiceNotFound)
        } else if market@.services[service_id].status != ServiceStatus::DISPUTING {
            Err::<(), Error>(Error::InvalidDisputeStatus)
        } else if market@.lance_protocol_contract is None {
            Err::<(), Error>(Error::InvalidKey)
        } else if !protocol@.disputes.contains_key(dispute_id) {
            Err::<(), Error>(Error::DisputeNotFound)
        } else if protocol@.disputes[dispute_id].counterpart
            != market@.services[service_id].employee {
            Err::<(), Error>(Error::NotAuthorized)
        } else {
            Ok::<(), Error>(())
        },
{
    let service = match market.services.get(&service_id) {
        Some(service) => service,
        None => {
            return Err(Error::ServiceNotFound);
        },
    };
    if service.status != ServiceStatus::DISPUTING {
        return Err(Error::InvalidDisputeStatus);
    }
    if market.lance_protocol_contract.is_none() {
        return Err(Error::InvalidKey);
    }
    match protocol.dispute(dispute_id) {
        None => Err(Error::DisputeNotFound),
        Some(dispute) => {
            if dispute.counterpart != service.employee {
                Err(Error::NotAuthorized)
            } else {
                Ok(())
            }
        },
    }
}

} // verus!
