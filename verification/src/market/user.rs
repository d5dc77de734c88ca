//! The users of the market.

use vstd::prelude::*;
use crate::address::Address;
use crate::dispute::optional_text;

verus! {

/// A user of the market and the parts it plays.
#[derive(Clone, Debug)]
pub struct User {
    pub address: Address,
    pub is_employee: bool,
    pub is_employer: bool,
    pub is_judge: bool,
    pub personal_data: Option<String>,
    /// Who has delegated its vote to this user.
    pub delegates: Vec<Address>,
}

/// What the record of a user holds.
pub struct UserView {
    pub address: Address,
    pub is_employee: bool,
    pub is_employer: bool,
    pub is_judge: bool,
    pub personal_data: Option<Seq<char>>,
    pub delegates: Seq<Address>,
}

impl View for User {
    type V = UserView;

    open spec fn view(&self) -> UserView {
        UserView {
            address: self.address,
            is_employee: self.is_employee,
            is_employer: self.is_employer,
            is_judge: self.is_judge,
            personal_data: optional_text(self.personal_data),
            delegates: self.delegates@,
        }
    }
}

/// The record of somebody who has just become a user.
pub open spec fn new_user(
    address: Address,
    is_employee: bool,
    is_employer: bool,
    is_judge: bool,
    personal_data: Option<Seq<char>>,
) -> UserView {
    UserView { address, is_employee, is_employer, is_judge, personal_data, delegates: Seq::empty() }
}

impl User {
    /// The record of somebody who has just become a user.
    pub fn new(
        address: Address,
        is_employee: bool,
        is_employer: bool,
        is_judge: bool,
        personal_data: Option<String>,
    ) -> (user: User)
        ensures
            user@ == new_user(
                address,
                is_employee,
                is_employer,
                is_judge,
                optional_text(personal_data),
            ),
    {
        User { address, is_employee, is_employer, is_judge, personal_data, delegates: Vec::new() }
    }

    /// A copy of this record.
    pub fn duplicate(&self) -> (copy: User)
        ensures
            copy@ == self@,
    {
        let personal_data = match &self.personal_data {
            Some(text) => Some(text.clone()),
            None => None,
        };
        let delegates = self.delegates.clone();
        assert(delegates@ =~= self.delegates@);
        User {
            address: self.address,
            is_employee: self.is_employee,
            is_employer: self.is_employer,
            is_judge: self.is_judge,
            personal_data,
            delegates,
        }
    }
}

} // verus!
