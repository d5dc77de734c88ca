//! The errors an operation of the market can end in.

use vstd::prelude::*;

verus! {

/// Why an operation of the market was refused. An operation that returns an
/// error has changed nothing.
#[derive(Clone, Copy, Debug, PartialEq, Eq, Structural)]
pub enum Error {
    ContractInitialized,
    ContractNotInitialized,
    NotAuthorized,
    UserNotFound,
    ServiceNotFound,
    DisputeNotFound,
    InsufficientTime,
    InvalidDuration,
    BalanceIsZero,
    InvalidStatus,
    InvalidService,
    InvalidServiceStatus,
    DisputeAlreadyCreated,
    InvalidDisputeStatus,
    JudgeNotFound,
    InvalidAmount,
    NoPositionInBlend,
    InsufficientFundsInBlend,
    NoTokensToLend,
    InvalidKey,
}

/// The number under which an error of the market is reported to a caller.
pub open spec fn error_code(error: Error) -> u32 {
    match error {
        Error::ContractInitialized => 0,
        Error::ContractNotInitialized => 1,
        Error::NotAuthorized => 2,
        Error::UserNotFound => 3,
        Error::ServiceNotFound => 4,
        Error::DisputeNotFound => 5,
        Error::InsufficientTime => 6,
        Error::InvalidDuration => 7,
        Error::BalanceIsZero => 8,
        Error::InvalidStatus => 9,
        Error::InvalidService => 10,
        Error::InvalidServiceStatus => 11,
        Error::DisputeAlreadyCreated => 12,
        Error::InvalidDisputeStatus => 13,
        Error::JudgeNotFound => 14,
        Error::InvalidAmount => 15,
        Error::NoPositionInBlend => 16,
        Error::InsufficientFundsInBlend => 17,
        Error::NoTokensToLend => 18,
        Error::InvalidKey => 19,
    }
}

impl Error {
    /// The number under which this error is reported to a caller.
    pub fn code(self) -> (code: u32)
        ensures
            code == error_code(self),
    {
        match self {
            Error::ContractInitialized => 0,
            Error::ContractNotInitialized => 1,
            Error::NotAuthorized => 2,
            Error::UserNotFound => 3,
            Error::ServiceNotFound => 4,
            Error::DisputeNotFound => 5,
            Error::InsufficientTime => 6,
            Error::InvalidDuration => 7,
            Error::BalanceIsZero => 8,
            Error::InvalidStatus => 9,
            Error::InvalidService => 10,
            Error::InvalidServiceStatus => 11,
            Error::DisputeAlreadyCreated => 12,
            Error::InvalidDisputeStatus => 13,
            Error::JudgeNotFound => 14,
            Error::InvalidAmount => 15,
            Error::NoPositionInBlend => 16,
            Error::InsufficientFundsInBlend => 17,
            Error::NoTokensToLend => 18,
            Error::InvalidKey => 19,
        }
    }
}

} // verus!
