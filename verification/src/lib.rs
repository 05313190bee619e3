//! Accounting and validator-list rebalancing engine for a stake pool.
//!
//! The pool tracks stake delegated across many validators, mints and burns
//! pool-share tokens against a floating exchange rate, and incrementally
//! rebalances stake between validators and a reserve across epoch boundaries.

use vstd::prelude::*;

pub mod address;
pub mod engine;
pub mod error;
pub mod instruction;
pub mod laws;
pub mod math;
pub mod pack;
pub mod layout;
pub mod state;
pub mod validator_list;

verus! {

/// Seed for the program-derived withdraw authority of a pool.
pub const AUTHORITY_WITHDRAW: &'static str = "withdraw";

/// Minimum amount of lamports that can be delegated to a validator in one
/// increase, on top of the rent-exempt minimum, to avoid problems with small
/// credits-observed merges later.
pub const MINIMUM_ACTIVE_STAKE: u64 = 1_000_000_000;

} // verus!
