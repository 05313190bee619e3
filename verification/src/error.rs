//! Errors that the stake pool operations can return.

use vstd::prelude::*;

verus! {

/// Everything that can go wrong while operating on the pool.
///
/// Authorization and structural errors are fatal for the caller;
/// state-conflict errors are expected to clear after an intervening balance
/// update; arithmetic errors signal a value too large or a degenerate pool
/// state that must not proceed silently.
#[derive(Clone, Copy, Debug, PartialEq, Eq, Structural)]
pub enum StakePoolError {
    /// The account provided or derived does not match the expected program
    /// address.
    InvalidProgramAddress,
    /// The manager supplied does not match the pool's manager.
    WrongManager,
    /// The staker supplied does not match the pool's staker.
    WrongStaker,
    /// A required signature is missing.
    SignatureMissing,
    /// The validator list supplied does not belong to this pool.
    InvalidValidatorStakeList,
    /// The mint supplied does not match the pool's mint.
    WrongPoolMint,
    /// The account holds a different kind of record than the decode asked
    /// for.
    WrongAccountType,
    /// The account bytes are too short for the requested decode.
    AccountDataTooSmall,
    /// The account bytes do not hold a well-formed record.
    InvalidAccountData,
    /// The stake account is not in the state the operation needs, such as
    /// not being delegated to the intended validator.
    WrongStakeState,
    /// The validator is already in the pool's list.
    ValidatorAlreadyAdded,
    /// The validator is not in the pool's list.
    ValidatorNotFound,
    /// The validator still has active or transient stake and cannot be
    /// removed.
    ValidatorStakeStillActive,
    /// The validator list already holds as many entries as it was sized for.
    MaxValidatorsReached,
    /// The validator already has a transient stake account in flight.
    TransientAccountInUse,
    /// A validator-list entry was not updated this epoch, so pool totals
    /// cannot be trusted.
    StakeListOutOfDate,
    /// The pool totals were not updated this epoch, so pricing cannot be
    /// trusted.
    StakeListAndPoolOutOfDate,
    /// The lockup of the stake does not match the pool's lockup.
    WrongLockup,
    /// The stake account does not hold enough lamports for the request.
    InsufficientFunds,
    /// The reserve may only be drawn from once no validator holds active
    /// stake.
    ActiveStakeRemaining,
    /// Arithmetic overflowed, a division was by zero, or a conversion left
    /// the representable range.
    CalculationFailure,
}

impl StakePoolError {
    /// A short description of the error, for callers that report it.
    pub fn message(&self) -> (s: &'static str) {
        match self {
            StakePoolError::InvalidProgramAddress => "invalid program derived address",
            StakePoolError::WrongManager => "wrong pool manager",
            StakePoolError::WrongStaker => "wrong pool staker",
            StakePoolError::SignatureMissing => "required signature missing",
            StakePoolError::InvalidValidatorStakeList => "wrong validator list account",
            StakePoolError::WrongPoolMint => "wrong pool mint",
            StakePoolError::WrongAccountType => "account holds a different kind of record",
            StakePoolError::AccountDataTooSmall => "account data too small",
            StakePoolError::InvalidAccountData => "account data malformed",
            StakePoolError::WrongStakeState => "stake account in the wrong state",
            StakePoolError::ValidatorAlreadyAdded => "validator already added",
            StakePoolError::ValidatorNotFound => "validator not found",
            StakePoolError::ValidatorStakeStillActive => "validator stake still active",
            StakePoolError::MaxValidatorsReached => "validator list is full",
            StakePoolError::TransientAccountInUse => "transient stake account in use",
            StakePoolError::StakeListOutOfDate => "validator list out of date",
            StakePoolError::StakeListAndPoolOutOfDate => "pool totals out of date",
            StakePoolError::WrongLockup => "lockup does not match the pool",
            StakePoolError::InsufficientFunds => "insufficient funds",
            StakePoolError::ActiveStakeRemaining => "validators still hold active stake",
            StakePoolError::CalculationFailure => "calculation failure",
        }
    }
}

} // verus!
