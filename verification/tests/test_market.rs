use lance_protocol::address::Address;
use lance_protocol::contract::ProtocolContract;
use lance_protocol::market::contract::{
    accept_service, add_milestone, add_user, approve_milestone, approve_service, create_dispute,
    create_service, get_balance, get_service, get_user, initialize, redeem, remove_service,
    set_balance, update_dispute, vote_delegate, Contract,
};
use lance_protocol::market::error::Error;
use lance_protocol::market::service::{Service, ServiceStatus, DISPUTE_VOTING_TIME, SECONDS_PER_DAY};
use lance_protocol::market::user::User;
use lance_protocol::status::DisputeStatus;
use lance_protocol::storage::get_dispute;

const NOW: u64 = 1_700_000_000;

struct ContractTest {
    contract: Contract,
    employee_1: Address,
    employer_1: Address,
    service_1: (u32, u64, i128),
}

fn setup() -> ContractTest {
    let mut contract = Contract::new();
    let admin = Address::account(0, 1);
    let token = Address::contract(0, 2);
    assert_eq!(initialize(&mut contract, admin, token), Ok(()));
    ContractTest {
        contract,
        employee_1: Address::account(0, 31),
        employer_1: Address::account(0, 32),
        service_1: (1, 1, 1000),
    }
}

#[test]
fn test_add_and_new_service() {
    let ContractTest { mut contract, employee_1, employer_1, .. } = setup();

    let service_id_1: u32 = 1;
    let one_day_duration: u64 = 1;
    let milestone_payment: i128 = 1000;
    let service_metadata = String::from("Service 1");

    create_service(
        &mut contract,
        employee_1,
        employer_1,
        service_id_1,
        one_day_duration,
        Some(service_metadata.clone()),
        milestone_payment,
    )
    .unwrap();

    let service_data = get_service(&contract, service_id_1).unwrap();

    assert_eq!(service_data.id, service_id_1);
    assert_eq!(service_data.employee, employee_1);
    assert_eq!(service_data.employer, employer_1);
    assert_eq!(service_data.duration, one_day_duration * 86400);
    assert_eq!(service_data.metadata, Some(service_metadata));
    assert_eq!(service_data.milestone_payment, milestone_payment);
    assert_eq!(service_data.status, ServiceStatus::CREATED);
    assert_eq!(service_data.current_milestone, 1);
    assert_eq!(service_data.started_moment, 0);
}

#[test]
fn test_accept_service() {
    let ContractTest {
        mut contract,
        employee_1,
        employer_1,
        service_1: (service_id_1, one_day_duration, milestone_payment),
    } = setup();

    create_service(
        &mut contract,
        employee_1,
        employer_1,
        service_id_1,
        one_day_duration,
        None,
        milestone_payment,
    )
    .unwrap();

    let accepted = accept_service(&mut contract, employer_1, service_id_1, NOW).unwrap();

    let service_data = get_service(&contract, service_id_1).unwrap();
    assert_eq!(service_data.status, ServiceStatus::ACCEPTED);
    assert_eq!(service_data.started_moment, NOW);
    assert_eq!(accepted.milestone_payment, milestone_payment);
    assert_eq!(accepted.status, ServiceStatus::ACCEPTED);
}

#[test]
fn test_approve_service() {
    let ContractTest {
        mut contract,
        employee_1,
        employer_1,
        service_1: (service_id_1, one_day_duration, milestone_payment),
    } = setup();

    create_service(
        &mut contract,
        employee_1,
        employer_1,
        service_id_1,
        one_day_duration,
        None,
        milestone_payment,
    )
    .unwrap();

    accept_service(&mut contract, employer_1, service_id_1, NOW).unwrap();

    assert_eq!(get_balance(&contract, &employee_1), 0);
    assert_eq!(get_balance(&contract, &employer_1), 0);

    approve_service(&mut contract, employer_1, service_id_1).unwrap();

    let service_data = get_service(&contract, service_id_1);
    assert!(matches!(service_data, Err(Error::ServiceNotFound)));
    assert_eq!(Error::ServiceNotFound.code(), 4);
    assert_eq!(get_balance(&contract, &employer_1), 0);
    assert_eq!(get_balance(&contract, &employee_1), milestone_payment);
}

#[test]
fn test_approve_milestone() {
    let ContractTest { mut contract, employee_1, employer_1, .. } = setup();

    let service_id_1: u32 = 1;
    let one_day_duration: u64 = 1;
    let milestone_payment: i128 = 1000;

    create_service(
        &mut contract,
        employee_1,
        employer_1,
        service_id_1,
        one_day_duration,
        None,
        milestone_payment,
    )
    .unwrap();

    accept_service(&mut contract, employer_1, service_id_1, NOW).unwrap();

    assert_eq!(get_balance(&contract, &employee_1), 0);
    assert_eq!(get_balance(&contract, &employer_1), 0);

    let approved = approve_milestone(&mut contract, employer_1, service_id_1).unwrap();

    assert_eq!(get_balance(&contract, &employer_1), 0);
    assert_eq!(get_balance(&contract, &employee_1), milestone_payment);
    assert_eq!(approved.status, ServiceStatus::WAITING);
    assert_eq!(approved.current_milestone, 2);
    assert_eq!(get_service(&contract, service_id_1).unwrap().status, ServiceStatus::WAITING);
}

#[test]
fn test_redeem_after_approval() {
    let ContractTest {
        mut contract,
        employee_1,
        employer_1,
        service_1: (service_id_1, one_day_duration, milestone_payment),
    } = setup();

    create_service(
        &mut contract,
        employee_1,
        employer_1,
        service_id_1,
        one_day_duration,
        None,
        milestone_payment,
    )
    .unwrap();

    accept_service(&mut contract, employer_1, service_id_1, NOW).unwrap();

    approve_service(&mut contract, employer_1, service_id_1).unwrap();

    assert_eq!(get_balance(&contract, &employee_1), milestone_payment);

    let paid = redeem(&mut contract, employee_1);

    assert_eq!(paid, Ok(milestone_payment));
    assert_eq!(get_balance(&contract, &employee_1), 0);
}

#[test]
fn test_set_and_get_blend_pool() {
    let ContractTest {
        mut contract,
        employee_1,
        employer_1,
        service_1: (service_id_1, one_day_duration, milestone_payment),
    } = setup();

    create_service(
        &mut contract,
        employee_1,
        employer_1,
        service_id_1,
        one_day_duration,
        None,
        milestone_payment,
    )
    .unwrap();

    accept_service(&mut contract, employer_1, service_id_1, NOW).unwrap();

    approve_service(&mut contract, employer_1, service_id_1).unwrap();

    assert_eq!(get_balance(&contract, &employee_1), milestone_payment);

    redeem(&mut contract, employee_1).unwrap();

    let second = redeem(&mut contract, employee_1);

    assert_eq!(second, Err(Error::BalanceIsZero));
    assert_eq!(Error::BalanceIsZero.code(), 8);
    assert_eq!(get_balance(&contract, &employee_1), 0);
}

#[test]
fn blend_test_set_and_get_blend_pool() {
    let ContractTest {
        mut contract,
        employee_1,
        employer_1,
        service_1: (service_id_1, one_day_duration, milestone_payment),
    } = setup();

    create_service(
        &mut contract,
        employee_1,
        employer_1,
        service_id_1,
        one_day_duration,
        None,
        milestone_payment,
    )
    .unwrap();
    accept_service(&mut contract, employer_1, service_id_1, NOW).unwrap();
    approve_service(&mut contract, employer_1, service_id_1).unwrap();
    assert_eq!(get_balance(&contract, &employee_1), milestone_payment);

    assert_eq!(redeem(&mut contract, employee_1), Ok(milestone_payment));
    assert_eq!(redeem(&mut contract, employee_1), Err(Error::BalanceIsZero));
}

#[test]
fn test_create_employee_user() {
    let ContractTest { mut contract, employee_1, .. } = setup();

    add_user(&mut contract, employee_1, true, false, false, None).unwrap();

    let user_data = get_user(&contract, employee_1).unwrap();

    assert_eq!(user_data.address, employee_1);
    assert!(user_data.is_employee);
    assert!(!user_data.is_employer);
    assert!(!user_data.is_judge);
    assert!(user_data.personal_data.is_none());
}

#[test]
fn test_create_employer_user() {
    let ContractTest { mut contract, employer_1, .. } = setup();

    add_user(&mut contract, employer_1, false, true, false, None).unwrap();

    let user_data = get_user(&contract, employer_1).unwrap();

    assert_eq!(user_data.address, employer_1);
    assert!(!user_data.is_employee);
    assert!(user_data.is_employer);
    assert!(!user_data.is_judge);
    assert!(user_data.personal_data.is_none());
}

#[test]
fn test_create_user_with_personal_data() {
    let ContractTest { mut contract, employee_1, .. } = setup();

    let personal_data = String::from("Employee 1");

    add_user(&mut contract, employee_1, true, false, false, Some(personal_data.clone())).unwrap();

    let user_data = get_user(&contract, employee_1).unwrap();
    assert_eq!(user_data.personal_data, Some(personal_data));
}

#[test]
fn test_multiple_users_are_independent() {
    let ContractTest { mut contract, employee_1, employer_1, .. } = setup();

    add_user(&mut contract, employee_1, true, false, false, None).unwrap();
    add_user(&mut contract, employer_1, false, true, false, None).unwrap();

    let data1 = get_user(&contract, employee_1).unwrap();
    let data2 = get_user(&contract, employer_1).unwrap();

    assert_ne!(data1.address, data2.address);
    assert!(data1.is_employee && !data2.is_employee);
    assert!(data2.is_employer && !data1.is_employer);
}

#[test]
fn test_add_and_get_user() {
    let ContractTest { mut contract, employee_1, .. } = setup();

    let personal_data = String::from("Employee 1");
    add_user(&mut contract, employee_1, true, false, false, Some(personal_data.clone())).unwrap();

    let user_data = get_user(&contract, employee_1).unwrap();

    assert_eq!(user_data.address, employee_1);
    assert_eq!(user_data.is_employee, true);
    assert_eq!(user_data.is_employer, false);
    assert_eq!(user_data.is_judge, false);
    assert_eq!(user_data.personal_data, Some(personal_data));
}

#[test]
fn unknown_user_is_not_found_and_takes_no_delegation() {
    let ContractTest { mut contract, employee_1, employer_1, .. } = setup();

    assert!(matches!(get_user(&contract, employee_1), Err(Error::UserNotFound)));
    assert_eq!(vote_delegate(&mut contract, employee_1, employer_1), Err(Error::UserNotFound));

    add_user(&mut contract, employee_1, false, false, true, None).unwrap();
    assert_eq!(vote_delegate(&mut contract, employee_1, employer_1), Ok(()));
    assert_eq!(vote_delegate(&mut contract, employee_1, Address::account(0, 40)), Ok(()));

    let judge = get_user(&contract, employee_1).unwrap();
    assert_eq!(judge.delegates, vec![employer_1, Address::account(0, 40)]);
    assert_eq!(User::new(employee_1, true, true, true, None).delegates.len(), 0);
}

#[test]
fn service_needs_at_least_a_day() {
    let ContractTest { mut contract, employee_1, employer_1, .. } = setup();

    let none = create_service(&mut contract, employee_1, employer_1, 1, 0, None, 1000);
    let week = create_service(&mut contract, employee_1, employer_1, 2, 7, None, 1000).unwrap();

    assert!(matches!(none, Err(Error::InvalidDuration)));
    assert!(matches!(get_service(&contract, 1), Err(Error::ServiceNotFound)));
    assert_eq!(week.duration, 604_800);
    assert_eq!(SECONDS_PER_DAY, 86_400);
    assert_eq!(Error::InvalidDuration.code(), 7);
    let longest = u64::MAX / SECONDS_PER_DAY;
    let long = Service::offer(3, employee_1, employer_1, longest, None, 0).unwrap();
    assert_eq!(long.duration, longest * 86_400);
}

#[test]
fn only_the_employer_accepts_and_approves() {
    let ContractTest { mut contract, employee_1, employer_1, .. } = setup();
    create_service(&mut contract, employee_1, employer_1, 1, 1, None, 1000).unwrap();

    assert!(matches!(accept_service(&mut contract, employee_1, 1, NOW), Err(Error::NotAuthorized)));
    assert!(matches!(accept_service(&mut contract, employer_1, 2, NOW), Err(Error::ServiceNotFound)));
    assert!(matches!(approve_milestone(&mut contract, employee_1, 1), Err(Error::NotAuthorized)));
    assert!(matches!(approve_milestone(&mut contract, employer_1, 2), Err(Error::ServiceNotFound)));
    assert!(matches!(approve_service(&mut contract, employee_1, 1), Err(Error::NotAuthorized)));
    assert!(matches!(approve_service(&mut contract, employer_1, 2), Err(Error::ServiceNotFound)));

    let kept = get_service(&contract, 1).unwrap();
    assert_eq!(kept.status, ServiceStatus::CREATED);
    assert_eq!(kept.current_milestone, 1);
    assert_eq!(get_balance(&contract, &employee_1), 0);
    assert_eq!(Error::NotAuthorized.code(), 2);
}

#[test]
fn accepting_needs_a_token() {
    let mut contract = Contract::new();
    let employee = Address::account(0, 31);
    let employer = Address::account(0, 32);
    create_service(&mut contract, employee, employer, 1, 1, None, 1000).unwrap();

    let result = accept_service(&mut contract, employer, 1, NOW);

    assert!(matches!(result, Err(Error::ContractNotInitialized)));
    assert_eq!(get_service(&contract, 1).unwrap().status, ServiceStatus::CREATED);
    set_balance(&mut contract, &employee, 5);
    assert_eq!(redeem(&mut contract, employee), Err(Error::ContractNotInitialized));
    assert_eq!(get_balance(&contract, &employee), 5);
    assert_eq!(initialize(&mut contract, employer, employee), Ok(()));
    assert_eq!(initialize(&mut contract, employer, employee), Err(Error::ContractInitialized));
}

#[test]
fn milestone_is_added_to_a_service_that_is_used_up() {
    let ContractTest { mut contract, employee_1, employer_1, .. } = setup();
    create_service(&mut contract, employee_1, employer_1, 1, 1, None, 1000).unwrap();

    assert!(matches!(add_milestone(&mut contract, employer_1, 1, 2, 500), Err(Error::NotAuthorized)));
    assert!(matches!(add_milestone(&mut contract, employee_1, 1, 2, 500), Err(Error::InvalidStatus)));
    assert!(matches!(add_milestone(&mut contract, employee_1, 9, 2, 500), Err(Error::ServiceNotFound)));

    accept_service(&mut contract, employer_1, 1, NOW).unwrap();
    approve_milestone(&mut contract, employer_1, 1).unwrap();
    assert!(matches!(add_milestone(&mut contract, employee_1, 1, 2, 500), Err(Error::InvalidService)));
    assert_eq!(get_service(&contract, 1).unwrap().milestone_payment, 1000);

    let mut used_up = get_service(&contract, 1).unwrap();
    used_up.duration = 0;
    used_up.milestone_payment = 0;
    assert_eq!(used_up.add_milestone(employee_1, 2, 500), Ok(()));
    assert_eq!(used_up.duration, 172_800);
    assert_eq!(used_up.milestone_payment, 500);
    assert_eq!(used_up.status, ServiceStatus::WAITING);
    assert_eq!(Error::InvalidStatus.code(), 9);
    assert_eq!(Error::InvalidService.code(), 10);
}

#[test]
fn removed_service_is_gone() {
    let ContractTest { mut contract, employee_1, employer_1, .. } = setup();
    create_service(&mut contract, employee_1, employer_1, 1, 1, None, 1000).unwrap();
    create_service(&mut contract, employee_1, employer_1, 2, 1, None, 2000).unwrap();

    remove_service(&mut contract, 1);
    remove_service(&mut contract, 7);

    assert!(matches!(get_service(&contract, 1), Err(Error::ServiceNotFound)));
    assert_eq!(get_service(&contract, 2).unwrap().milestone_payment, 2000);
}

#[test]
fn employer_takes_an_accepted_service_to_the_judges() {
    let ContractTest { mut contract, employee_1, employer_1, .. } = setup();
    let mut protocol = ProtocolContract::new();
    let this = Address::contract(0, 50);
    create_service(&mut contract, employee_1, employer_1, 4, 1, None, 1000).unwrap();

    let early = create_dispute(&mut contract, &mut protocol, this, employer_1, 4, String::from("late work"), NOW);
    assert_eq!(early, Err(Error::InvalidServiceStatus));
    accept_service(&mut contract, employer_1, 4, NOW).unwrap();
    let by_employee =
        create_dispute(&mut contract, &mut protocol, this, employee_1, 4, String::from("late work"), NOW);
    let missing =
        create_dispute(&mut contract, &mut protocol, this, employer_1, 5, String::from("late work"), NOW);
    let unknown_protocol =
        create_dispute(&mut contract, &mut protocol, this, employer_1, 4, String::from("late work"), NOW);
    assert_eq!(by_employee, Err(Error::NotAuthorized));
    assert_eq!(missing, Err(Error::ServiceNotFound));
    assert_eq!(unknown_protocol, Err(Error::InvalidKey));
    assert_eq!(protocol.dispute_count(), 0);
    assert_eq!(get_service(&contract, 4).unwrap().status, ServiceStatus::ACCEPTED);

    contract.set_protocol(Address::contract(0, 60));
    let opened =
        create_dispute(&mut contract, &mut protocol, this, employer_1, 4, String::from("late work"), NOW);

    assert_eq!(opened, Ok(1));
    assert_eq!(get_service(&contract, 4).unwrap().status, ServiceStatus::DISPUTING);
    let dispute = get_dispute(&protocol, 1).unwrap();
    assert_eq!(dispute.project_id, 4);
    assert_eq!(dispute.creator, employer_1);
    assert_eq!(dispute.counterpart, employee_1);
    assert_eq!(dispute.creator_proves, "late work");
    assert_eq!(dispute.vote_data.voting_ends_at, NOW + 7 * 24 * 60 * 60);
    assert_eq!(DISPUTE_VOTING_TIME, 604_800);
    assert_eq!(dispute.called_contract, this);
    assert_eq!(dispute.initial_timestamp, NOW);
    assert_eq!(dispute.dispute_status, DisputeStatus::OPEN);

    let again =
        create_dispute(&mut contract, &mut protocol, this, employer_1, 4, String::from("late work"), NOW);
    assert_eq!(again, Err(Error::InvalidServiceStatus));
    assert_eq!(protocol.dispute_count(), 1);
    assert_eq!(Error::InvalidServiceStatus.code(), 11);
    assert_eq!(Error::InvalidKey.code(), 19);
}

#[test]
fn employee_answers_its_own_dispute() {
    let ContractTest { mut contract, employee_1, employer_1, .. } = setup();
    let mut protocol = ProtocolContract::new();
    let this = Address::contract(0, 50);
    create_service(&mut contract, employee_1, employer_1, 4, 1, None, 1000).unwrap();
    create_service(&mut contract, employer_1, employee_1, 5, 1, None, 1000).unwrap();
    accept_service(&mut contract, employer_1, 4, NOW).unwrap();
    accept_service(&mut contract, employee_1, 5, NOW).unwrap();

    assert_eq!(update_dispute(&contract, &protocol, 4, 1), Err(Error::InvalidDisputeStatus));
    assert_eq!(update_dispute(&contract, &protocol, 9, 1), Err(Error::ServiceNotFound));

    contract.set_protocol(Address::contract(0, 60));
    create_dispute(&mut contract, &mut protocol, this, employer_1, 4, String::from("a"), NOW).unwrap();
    create_dispute(&mut contract, &mut protocol, this, employee_1, 5, String::from("b"), NOW).unwrap();

    assert_eq!(update_dispute(&contract, &protocol, 4, 1), Ok(()));
    assert_eq!(update_dispute(&contract, &protocol, 5, 2), Ok(()));
    assert_eq!(update_dispute(&contract, &protocol, 4, 2), Err(Error::NotAuthorized));
    assert_eq!(update_dispute(&contract, &protocol, 4, 3), Err(Error::DisputeNotFound));
    assert_eq!(Error::InvalidDisputeStatus.code(), 13);
    assert_eq!(Error::DisputeNotFound.code(), 5);
}
