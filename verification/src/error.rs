//! The errors an operation can end in.

use vstd::prelude::*;

verus! {

/// Why an operation was refused. An operation that returns an error has
/// changed nothing.
#[derive(Clone, Copy, Debug, PartialEq, Eq, Structural)]
pub enum Error {
    ContractInitialized,
    ContractNotInitialized,
    NotAuthorized,
    UserNotFound,
    ServiceNotFound,
    DisputeNotFound,
    InsufficientTime,
    InvalidDuration,
    BalanceIsZero,
    InvalidStatus,
    InvalidService,
    InvalidServiceStatus,
    DisputeAlreadyCreated,
    InvalidDisputeStatus,
    JudgeNotFound,
    InvalidAmount,
    NoPositionInBlend,
    InsufficientFundsInBlend,
    NoTokensToLend,
    DisputeAlreadyResolved,
    DisputeNotOpen,
    JudgeNotAllowedToVote,
    JudgeAlreadyVoted,
    InvalidReveal,
    JudgeNotCommitted,
    UnauthorizedSigner,
    InvalidKey,
    TallySeedError,
    NoAnonymousVotingConfig,
    AdminNotFound,
    ProposalVotingTime,
    VoteLimitExceeded,
    AlreadyVoted,
    BadCommitment,
    WrongVoter,
    UnknownMember,
    VoterWeight,
    ProposalActive,
    InvalidProof,
    AlreadyClaimed,
    VoterNotFound,
    NoWinner,
}

/// The number under which an error is reported to a caller.
pub open spec fn error_code(error: Error) -> u32 {
    match error {
        Error::ContractInitialized => 0,
        Error::ContractNotInitialized => 1,
        Error::NotAuthorized => 2,
        Error::UserNotFound => 3,
        Error::ServiceNotFound => 4,
        Error::DisputeNotFound => 5,
        Error::InsufficientTime => 6,
        Error::InvalidDuration => 7,
        Error::BalanceIsZero => 8,
        Error::InvalidStatus => 9,
        Error::InvalidService => 10,
        Error::InvalidServiceStatus => 11,
        Error::DisputeAlreadyCreated => 12,
        Error::InvalidDisputeStatus => 13,
        Error::JudgeNotFound => 14,
        Error::InvalidAmount => 15,
        Error::NoPositionInBlend => 16,
        Error::InsufficientFundsInBlend => 17,
        Error::NoTokensToLend => 18,
        Error::DisputeAlreadyResolved => 19,
        Error::DisputeNotOpen => 20,
        Error::JudgeNotAllowedToVote => 21,
        Error::JudgeAlreadyVoted => 22,
        Error::InvalidReveal => 23,
        Error::JudgeNotCommitted => 24,
        Error::UnauthorizedSigner => 25,
        Error::InvalidKey => 26,
        Error::TallySeedError => 27,
        Error::NoAnonymousVotingConfig => 28,
        Error::AdminNotFound => 29,
        Error::ProposalVotingTime => 30,
        Error::VoteLimitExceeded => 31,
        Error::AlreadyVoted => 32,
        Error::BadCommitment => 33,
        Error::WrongVoter => 34,
        Error::UnknownMember => 35,
        Error::VoterWeight => 36,
        Error::ProposalActive => 37,
        Error::InvalidProof => 38,
        Error::AlreadyClaimed => 39,
        Error::VoterNotFound => 40,
        Error::NoWinner => 41,
    }
}

impl Error {
    /// The number under which this error is reported to a caller.
    pub fn code(self) -> (code: u32)
        ensures
            code == error_code(self),
    {
        match self {
            Error::ContractInitialized => 0,
            Error::ContractNotInitialized => 1,
            Error::NotAuthorized => 2,
            Error::UserNotFound => 3,
            Error::ServiceNotFound => 4,
            Error::DisputeNotFound => 5,
            Error::InsufficientTime => 6,
            Error::InvalidDuration => 7,
            Error::BalanceIsZero => 8,
            Error::InvalidStatus => 9,
            Error::InvalidService => 10,
            Error::InvalidServiceStatus => 11,
            Error::DisputeAlreadyCreated => 12,
            Error::InvalidDisputeStatus => 13,
            Error::JudgeNotFound => 14,
            Error::InvalidAmount => 15,
            Error::NoPositionInBlend => 16,
            Error::InsufficientFundsInBlend => 17,
            Error::NoTokensToLend => 18,
            Error::DisputeAlreadyResolved => 19,
            Error::DisputeNotOpen => 20,
            Error::JudgeNotAllowedToVote => 21,
            Error::JudgeAlreadyVoted => 22,
            Error::InvalidReveal => 23,
            Error::JudgeNotCommitted => 24,
            Error::UnauthorizedSigner => 25,
            Error::InvalidKey => 26,
            Error::TallySeedError => 27,
            Error::NoAnonymousVotingConfig => 28,
            Error::AdminNotFound => 29,
            Error::ProposalVotingTime => 30,
            Error::VoteLimitExceeded => 31,
            Error::AlreadyVoted => 32,
            Error::BadCommitment => 33,
            Error::WrongVoter => 34,
            Error::UnknownMember => 35,
            Error::VoterWeight => 36,
            Error::ProposalActive => 37,
            Error::InvalidProof => 38,
            Error::AlreadyClaimed => 39,
            Error::VoterNotFound => 40,
            Error::NoWinner => 41,
        }
    }
}

} // verus!
