//! The operations a client can ask of the pool, as plain data.
//!
//! Building and decoding the on-wire instruction bytes and account lists is
//! the caller's plumbing; the engine consumes these values.

use vstd::prelude::*;

use crate::state::Fee;

verus! {

/// One instruction to the pool program.
#[derive(Clone, Copy, Debug, PartialEq, Eq, Structural)]
pub enum StakePoolInstruction {
    /// Set up a new pool: its fee and the number of validators its list is
    /// sized for.
    Initialize {
        /// Fee assessed as a proportion of each epoch's rewards.
        fee: Fee,
        /// Maximum expected number of validators.
        max_validators: u32,
    },
    /// Create the canonical stake account for a validator (staker only).
    CreateValidatorStakeAccount,
    /// Add a validator's stake account to the list (staker only).
    AddValidatorToPool,
    /// Remove a fully decommissioned validator from the list (staker only).
    RemoveValidatorFromPool,
    /// Split this many lamports of a validator's active stake into its
    /// transient account and deactivate them (staker only).
    DecreaseValidatorStake(u64),
    /// Split this many lamports from the reserve into a validator's
    /// transient account and delegate them (staker only).
    IncreaseValidatorStake(u64),
    /// Refresh a subset of validator entries from live balances,
    /// merging finished transient stake; permissionless.
    UpdateValidatorListBalance,
    /// Recompute the pool totals and mint the epoch's fee; permissionless.
    UpdateStakePoolBalance,
    /// Merge a user's stake into the pool for pool tokens.
    Deposit,
    /// Burn this many pool tokens for stake at the current rate.
    Withdraw(u64),
    /// Replace the manager (manager only).
    SetManager,
    /// Replace the staker (manager or staker).
    SetStaker,
}

} // verus!
