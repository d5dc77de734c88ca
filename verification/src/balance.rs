//! The balances that rewards are paid into.

use vstd::prelude::*;
use crate::address::Address;
use crate::contract::{balance_of, ContractView, ProtocolContract};
use crate::error::Error;

verus! {

/// Keeps `amount` as the balance of `user`.
pub fn set_balance(contract: &mut ProtocolContract, user: &Address, amount: i128)
    requires
        old(contract).wf(),
    ensures
        final(contract).wf(),
        final(contract)@ == (ContractView {
            balances: old(contract)@.balances.insert(*user, amount),
            ..old(contract)@
        }),
{
    contract.store_balance(*user, amount);
}

/// The balance of `user`; 0 for somebody who was never paid.
pub fn get_balance(contract: &ProtocolContract, user: &Address) -> (balance: i128)
    requires
        contract.wf(),
    ensures
        balance == balance_of(contract@.balances, *user),
{
    contract.balance(*user)
}

/// What redeeming the balance of `employee` comes to: the balance, unless
/// there is none, or no token to pay it in.
pub open spec fn redeem_outcome(state: ContractView, employee: Address) -> Result<i128, Error> {
    if balance_of(state.balances, employee) == 0 {
        Err(Error::BalanceIsZero)
    } else if state.token is None {
        Err(Error::ContractNotInitialized)
    } else {
        Ok(balance_of(state.balances, employee))
    }
}

/// Takes the whole balance of `employee` out and returns it, to be paid in
/// the protocol's token, or says why not and changes nothing.
pub fn redeem(contract: &mut ProtocolContract, employee: Address) -> (result: Result<i128, Error>)
    requires
        old(contract).wf(),
    ensures
        final(contract).wf(),
        result == redeem_outcome(old(contract)@, employee),
        final(contract)@ == if result is Ok {
            ContractView {
                balances: old(contract)@.balances.insert(employee, 0),
                ..old(contract)@
            }
        } else {
            old(contract)@
        },
{
    let balance = get_balance(contract, &employee);
    if balance == 0 {
        return Err(Error::BalanceIsZero);
    }
    if contract.token().is_none() {
        return Err(Error::ContractNotInitialized);
    }
    set_balance(contract, &employee, 0);
    Ok(balance)
}

} // verus!
