//! The market that disputes come from: services agreed between an employee
//! and an employer, paid milestone by milestone, and taken to the protocol
//! when the two disagree.

pub mod contract;
pub mod error;
pub mod service;
pub mod user;
