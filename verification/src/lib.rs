//! Resolving disputes between two parties by the votes of judges.
//!
//! A dispute is opened between a creator and a counterpart. Judges register
//! for it and vote in one of two schemes. In the commit-reveal scheme each
//! judge publishes the hash of its vote and a secret, and the creator later
//! reveals all votes at once; the majority decides. In the anonymous scheme
//! each judge casts a weighted vote hidden in commitments on the curve
//! BLS12-381, and the dispute is resolved from tallies that are proven, on the
//! commitments alone, to be those of the votes cast; a supermajority decides.
//! Judges are rewarded once a dispute is resolved.
//!
//! The rules of one dispute are methods of [`dispute::Dispute`]; the
//! operations on the whole state of the protocol are the functions of
//! [`disputes`], [`voting`], [`balance`], [`admin`] and [`storage`]; what holds
//! across operations is proved in [`laws`]. Hashing and curve arithmetic are
//! done by the Soroban SDK, through the functions of [`host`].

pub mod address;
pub mod admin;
pub mod anonymous;
pub mod balance;
pub mod bytes;
pub mod commit_reveal;
pub mod config;
pub mod contract;
pub mod curve;
pub mod dispute;
pub mod disputes;
pub mod error;
pub mod governor;
pub mod host;
pub mod laws;
pub mod market;
pub mod registration;
pub mod resolution;
pub mod reward;
pub mod status;
pub mod storage;
pub mod table;
pub mod vote;
pub mod voter;
pub mod voting;
