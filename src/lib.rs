//! A token-weighted governance engine: holders of a fungible token propose
//! transfers out of the governor's funds, cast one weighted vote each, and
//! execute a proposal once quorum and majority are reached.
//!
//! The environment (caller, time, funds, token ledger) is handed to each
//! operation as plain values, so every decision here is a verified function.

mod governor;
pub mod laws;
mod types;
mod weight;

pub use governor::{accepted, outcome, quorum_reached, saturating_sum, Governor, GovernorView, ONE_MINUTE};
pub use types::{AccountId, Balance, GovernorError, Proposal, ProposalId, ProposalVote, VoteType};
pub use weight::{vote_weight, weight_of};
