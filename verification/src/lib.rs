//! A governance ballot engine: a voting domain with tiered roles, proposals
//! with a lifecycle, and a ledger that admits one vote per proposal and voter.

pub mod account;
pub mod audit;
pub mod ballot;
pub mod batch;
pub mod config;
pub mod counting;
pub mod domain;
pub mod error;
pub mod identity;
pub mod laws;
pub mod model;
pub mod preservation;
pub mod proposal;
pub mod role;
pub mod vote;
