use lance_protocol::address::Address;
use lance_protocol::contract::ProtocolContract;
use lance_protocol::disputes::create_dispute;
use lance_protocol::error::Error;
use lance_protocol::storage::{get_voter, initialize, set_voter, update_voter};
use lance_protocol::voting::register_to_vote;

struct TestSetup {
    contract: ProtocolContract,
    contract_id: Address,
    creator: Address,
    counterpart: Address,
    proof: String,
    project_id: u32,
    voting_ends_at: u64,
    now: u64,
}

fn create_test_data() -> TestSetup {
    let mut contract = ProtocolContract::new();
    let contract_admin = Address::account(0, 1);
    let token = Address::contract(0, 2);
    assert_eq!(initialize(&mut contract, contract_admin, token), Ok(()));
    let now = 1_700_000_000;
    TestSetup {
        contract,
        contract_id: Address::contract(0, 3),
        creator: Address::account(0, 10),
        counterpart: Address::account(0, 11),
        proof: String::from("test proof 1"),
        project_id: 1,
        voting_ends_at: now + 3600 * 24 * 2,
        now,
    }
}

#[test]
fn test_new_voter_success() {
    let mut setup = create_test_data();

    let new_user = Address::account(3, 1);

    set_voter(&mut setup.contract, new_user);

    let voter = get_voter(&setup.contract, new_user).unwrap();

    assert_eq!(voter.address, new_user);
    assert_eq!(voter.delegates.len(), 0);
}

#[test]
fn test_multiple_voters() {
    let mut setup = create_test_data();

    let user1 = Address::account(3, 1);
    let user2 = Address::account(3, 2);
    let user3 = Address::account(3, 3);

    set_voter(&mut setup.contract, user1);
    set_voter(&mut setup.contract, user2);
    set_voter(&mut setup.contract, user3);

    let voter1 = get_voter(&setup.contract, user1).unwrap();
    let voter2 = get_voter(&setup.contract, user2).unwrap();
    let voter3 = get_voter(&setup.contract, user3).unwrap();

    assert_eq!(voter1.address, user1);
    assert_eq!(voter2.address, user2);
    assert_eq!(voter3.address, user3);
}

#[test]
fn test_get_nonexistent_voter_returns_error() {
    let setup = create_test_data();

    let nobody = Address::account(3, 9);

    let result = get_voter(&setup.contract, nobody);

    assert!(matches!(result, Err(Error::UserNotFound)));
    assert_eq!(Error::UserNotFound.code(), 3);
}

#[test]
fn test_voter_can_be_judge() {
    let mut setup = create_test_data();

    let judge = Address::account(3, 1);

    set_voter(&mut setup.contract, judge);

    let voter = get_voter(&setup.contract, judge).unwrap();
    assert_eq!(voter.address, judge);

    let dispute = create_dispute(
        &mut setup.contract,
        setup.project_id,
        setup.creator,
        setup.counterpart,
        setup.proof.clone(),
        setup.voting_ends_at,
        setup.contract_id,
        setup.now,
    )
    .unwrap();

    let updated_dispute =
        register_to_vote(&mut setup.contract, judge, dispute.dispute_id).unwrap();

    assert!(updated_dispute.able_to_vote.contains(&judge));
}

#[test]
fn test_voter_initial_state() {
    let mut setup = create_test_data();

    let user = Address::account(3, 1);
    set_voter(&mut setup.contract, user);

    let voter = get_voter(&setup.contract, user).unwrap();

    assert_eq!(voter.address, user);
    assert_eq!(voter.delegates.len(), 0);
    assert_eq!(voter.reputation, 0);
    assert_eq!(voter.balance, 0);
}

#[test]
fn update_voter_adds_what_was_earned() {
    let mut setup = create_test_data();
    let user = Address::account(3, 1);
    set_voter(&mut setup.contract, user);

    let profile = get_voter(&setup.contract, user).unwrap();
    update_voter(&mut setup.contract, profile, 25, 2);
    let profile = get_voter(&setup.contract, user).unwrap();
    update_voter(&mut setup.contract, profile, -5, 1);

    let voter = get_voter(&setup.contract, user).unwrap();
    assert_eq!(voter.balance, 20);
    assert_eq!(voter.reputation, 3);
}

#[test]
fn account_and_contract_with_one_key_are_two_identities() {
    let mut setup = create_test_data();
    set_voter(&mut setup.contract, Address::account(7, 7));

    assert!(get_voter(&setup.contract, Address::account(7, 7)).is_ok());
    assert!(matches!(
        get_voter(&setup.contract, Address::contract(7, 7)),
        Err(Error::UserNotFound)
    ));
}

#[test]
fn becoming_a_voter_again_keeps_the_profile() {
    let mut setup = create_test_data();
    let user = Address::account(3, 1);
    set_voter(&mut setup.contract, user);
    let profile = get_voter(&setup.contract, user).unwrap();
    update_voter(&mut setup.contract, profile, 10, 1);

    set_voter(&mut setup.contract, user);

    let voter = get_voter(&setup.contract, user).unwrap();
    assert_eq!(voter.balance, 10);
    assert_eq!(voter.reputation, 1);
}
