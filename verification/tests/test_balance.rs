use lance_protocol::address::Address;
use lance_protocol::balance::{get_balance, redeem, set_balance};
use lance_protocol::contract::ProtocolContract;
use lance_protocol::error::Error;
use lance_protocol::storage::initialize;

struct TestSetup {
    contract: ProtocolContract,
    creator: Address,
    counterpart: Address,
    judge1: Address,
    judge2: Address,
    judge3: Address,
}

fn create_test_data() -> TestSetup {
    let mut contract = ProtocolContract::new();
    let contract_admin = Address::account(0, 1);
    let token = Address::contract(0, 2);
    assert_eq!(initialize(&mut contract, contract_admin, token), Ok(()));
    TestSetup {
        contract,
        creator: Address::account(0, 10),
        counterpart: Address::account(0, 11),
        judge1: Address::account(0, 21),
        judge2: Address::account(0, 22),
        judge3: Address::account(0, 23),
    }
}

#[test]
fn test_get_balance_new_user() {
    let setup = create_test_data();

    let user = Address::account(1, 100);

    let balance = get_balance(&setup.contract, &user);

    assert_eq!(balance, 0);
}

#[test]
fn test_get_balance_multiple_users() {
    let setup = create_test_data();

    let user1 = Address::account(1, 101);
    let user2 = Address::account(1, 102);
    let user3 = Address::account(1, 103);

    let balance1 = get_balance(&setup.contract, &user1);
    let balance2 = get_balance(&setup.contract, &user2);
    let balance3 = get_balance(&setup.contract, &user3);

    assert_eq!(balance1, 0);
    assert_eq!(balance2, 0);
    assert_eq!(balance3, 0);
}

#[test]
fn test_redeem_zero_balance_returns_error() {
    let mut setup = create_test_data();

    let result = redeem(&mut setup.contract, setup.judge1);

    assert_eq!(result, Err(Error::BalanceIsZero));
    assert_eq!(Error::BalanceIsZero.code(), 8);
    assert_eq!(get_balance(&setup.contract, &setup.judge1), 0);
}

#[test]
fn test_balance_after_voting() {
    let setup = create_test_data();

    let initial_balance = get_balance(&setup.contract, &setup.judge1);
    assert_eq!(initial_balance, 0);
}

#[test]
fn test_multiple_judges_balance() {
    let setup = create_test_data();

    let judge1_balance = get_balance(&setup.contract, &setup.judge1);
    let judge2_balance = get_balance(&setup.contract, &setup.judge2);
    let judge3_balance = get_balance(&setup.contract, &setup.judge3);

    assert_eq!(judge1_balance, 0);
    assert_eq!(judge2_balance, 0);
    assert_eq!(judge3_balance, 0);
}

#[test]
fn test_creator_and_counterpart_balance() {
    let setup = create_test_data();

    let creator_balance = get_balance(&setup.contract, &setup.creator);
    let counterpart_balance = get_balance(&setup.contract, &setup.counterpart);

    assert_eq!(creator_balance, 0);
    assert_eq!(counterpart_balance, 0);
}

#[test]
fn redeem_takes_the_whole_balance_out() {
    let mut setup = create_test_data();
    set_balance(&mut setup.contract, &setup.judge1, 2_500_000);
    set_balance(&mut setup.contract, &setup.judge2, 7);

    assert_eq!(redeem(&mut setup.contract, setup.judge1), Ok(2_500_000));

    assert_eq!(get_balance(&setup.contract, &setup.judge1), 0);
    assert_eq!(get_balance(&setup.contract, &setup.judge2), 7);
    assert_eq!(redeem(&mut setup.contract, setup.judge1), Err(Error::BalanceIsZero));
}

#[test]
fn redeem_needs_a_token() {
    let mut contract = ProtocolContract::new();
    let user = Address::account(0, 5);
    set_balance(&mut contract, &user, 40);

    assert_eq!(redeem(&mut contract, user), Err(Error::ContractNotInitialized));
    assert_eq!(get_balance(&contract, &user), 40);
}

#[test]
fn set_balance_replaces_the_balance() {
    let mut contract = ProtocolContract::new();
    let user = Address::account(0, 5);
    set_balance(&mut contract, &user, 40);
    set_balance(&mut contract, &user, -3);

    assert_eq!(get_balance(&contract, &user), -3);
}
