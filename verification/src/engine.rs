//! The rebalancing engine: the pool's instruction-level operations as
//! deterministic state transitions.
//!
//! Each operation takes the pool record, the validator list and plain
//! observations of the external stake and token accounts, and either fully
//! succeeds or fails with one specific error, leaving the records unchanged.
//! Partial progress across validators happens only between calls, never
//! inside one.

use vstd::prelude::*;

use crate::address::Pubkey;
use crate::error::StakePoolError;
use crate::state::StakePool;
use crate::validator_list::{
    is_first_match, spec_contains_key, spec_has_active_stake, StakeStatus, ValidatorList,
    ValidatorStakeInfo,
};
use crate::MINIMUM_ACTIVE_STAKE;

verus! {

/// Whether a validator entry already has a transient stake account
/// outstanding: either lamports are in flight or the entry is mid-lifecycle.
/// Only one transient account may exist per validator at a time.
pub open spec fn spec_transient_in_use(entry: ValidatorStakeInfo) -> bool {
    entry.transient_stake_lamports > 0 || entry.status != StakeStatus::Active
}

/// Whether the staker check passes: the key matches and the signature is
/// present.
pub open spec fn spec_staker_ok(pool: StakePool, staker_key: Pubkey, staker_is_signer: bool) -> bool {
    pool.staker == staker_key && staker_is_signer
}

/// Appends a zeroed entry for a new validator.
///
/// Staker-signed. The canonical stake account must already be delegated to
/// the validator, with its withdraw authority set to the pool's deposit
/// authority; its stake is folded in by a later deposit, so the new entry
/// carries no lamports. Fails where the validator is already tracked or the
/// list is full.
pub fn add_validator_to_pool(
    pool: &StakePool,
    validator_list: &mut ValidatorList,
    staker_key: &Pubkey,
    staker_is_signer: bool,
    vote_account_address: &Pubkey,
    stake_account_delegated_vote: Option<&Pubkey>,
    stake_account_withdraw_authority: &Pubkey,
) -> (r: Result<(), StakePoolError>)
    ensures
        r is Ok <==> {
            &&& spec_staker_ok(*pool, *staker_key, staker_is_signer)
            &&& stake_account_delegated_vote == Some(vote_account_address)
            &&& pool.deposit_authority == *stake_account_withdraw_authority
            &&& !spec_contains_key(old(validator_list).validators@, *vote_account_address)
            &&& old(validator_list).validators@.len() < old(validator_list).header.max_validators
        },
        r is Ok ==> {
            &&& final(validator_list).validators@.len() == old(validator_list).validators@.len()
                + 1
            &&& final(validator_list).validators@.last().is_zeroed_for(*vote_account_address)
            &&& final(validator_list).validators@.drop_last() == old(validator_list).validators@
            &&& final(validator_list).header == old(validator_list).header
        },
        r is Err ==> *final(validator_list) == *old(validator_list),
        pool.staker != *staker_key ==> r == Err::<(), StakePoolError>(StakePoolError::WrongStaker),
        pool.staker == *staker_key && !staker_is_signer ==> r == Err::<(), StakePoolError>(
            StakePoolError::SignatureMissing,
        ),
        spec_staker_ok(*pool, *staker_key, staker_is_signer) && stake_account_delegated_vote
            != Some(vote_account_address) ==> r == Err::<(), StakePoolError>(
            StakePoolError::WrongStakeState,
        ),
        spec_staker_ok(*pool, *staker_key, staker_is_signer) && stake_account_delegated_vote
            == Some(vote_account_address) && pool.deposit_authority
            != *stake_account_withdraw_authority ==> r == Err::<(), StakePoolError>(
            StakePoolError::InvalidProgramAddress,
        ),
        spec_staker_ok(*pool, *staker_key, staker_is_signer) && stake_account_delegated_vote
            == Some(vote_account_address) && pool.deposit_authority
            == *stake_account_withdraw_authority && spec_contains_key(
            old(validator_list).validators@,
            *vote_account_address,
        ) ==> r == Err::<(), StakePoolError>(StakePoolError::ValidatorAlreadyAdded),
        spec_staker_ok(*pool, *staker_key, staker_is_signer) && stake_account_delegated_vote
            == Some(vote_account_address) && pool.deposit_authority
            == *stake_account_withdraw_authority && !spec_contains_key(
            old(validator_list).validators@,
            *vote_account_address,
        ) && old(validator_list).validators@.len() >= old(
            validator_list,
        ).header.max_validators ==> r == Err::<(), StakePoolError>(
            StakePoolError::MaxValidatorsReached,
        ),
{
    let ghost entries = validator_list.validators@;
    match pool.check_staker(staker_key, staker_is_signer) {
        Ok(()) => (),
        Err(e) => {
            return Err(e);
        },
    }
    let delegated_to_validator = match stake_account_delegated_vote {
        Some(vote) => *vote == *vote_account_address,
        None => false,
    };
    if !delegated_to_validator {
        return Err(StakePoolError::WrongStakeState);
    }
    match pool.check_deposit_authority(stake_account_withdraw_authority) {
        Ok(()) => (),
        Err(e) => {
            return Err(e);
        },
    }
    if validator_list.contains(vote_account_address) {
        return Err(StakePoolError::ValidatorAlreadyAdded);
    }
    let entry = ValidatorStakeInfo::zeroed_for(*vote_account_address);
    match validator_list.push(entry) {
        Ok(()) => {
            proof {
                assert(final(validator_list).validators@.drop_last() =~= entries);
            }
            Ok(())
        },
        Err(e) => Err(e),
    }
}

/// Removes a validator whose stake has been fully decommissioned.
///
/// Staker-signed; fails unless the entry's active and transient lamports are
/// both zero, and removes exactly that entry otherwise.
pub fn remove_validator_from_pool(
    pool: &StakePool,
    validator_list: &mut ValidatorList,
    staker_key: &Pubkey,
    staker_is_signer: bool,
    vote_account_address: &Pubkey,
) -> (r: Result<(), StakePoolError>)
    ensures
        pool.staker != *staker_key ==> r == Err::<(), StakePoolError>(StakePoolError::WrongStaker),
        pool.staker == *staker_key && !staker_is_signer ==> r == Err::<(), StakePoolError>(
            StakePoolError::SignatureMissing,
        ),
        spec_staker_ok(*pool, *staker_key, staker_is_signer) ==> {
            &&& (r == Err::<(), StakePoolError>(StakePoolError::ValidatorNotFound)
                <==> !spec_contains_key(old(validator_list).validators@, *vote_account_address))
            &&& forall|i: int|
                #[trigger] is_first_match(old(validator_list).validators@, *vote_account_address, i) ==> (
                if old(validator_list).validators@[i].active_stake_lamports == 0
                    && old(validator_list).validators@[i].transient_stake_lamports == 0 {
                    r is Ok && final(validator_list).validators@ == old(
                        validator_list,
                    ).validators@.remove(i)
                } else {
                    r == Err::<(), StakePoolError>(StakePoolError::ValidatorStakeStillActive)
                })
        },
        r is Err ==> *final(validator_list) == *old(validator_list),
        final(validator_list).header == old(validator_list).header,
{
    match pool.check_staker(staker_key, staker_is_signer) {
        Ok(()) => (),
        Err(e) => {
            return Err(e);
        },
    }
    let result = validator_list.remove(vote_account_address);
    proof {
        assert forall|i: int|
            #[trigger] is_first_match(
                old(validator_list).validators@,
                *vote_account_address,
                i,
            ) implies (if old(validator_list).validators@[i].active_stake_lamports == 0 && old(
            validator_list,
        ).validators@[i].transient_stake_lamports == 0 {
            result is Ok && final(validator_list).validators@ == old(
                validator_list,
            ).validators@.remove(i)
        } else {
            result == Err::<(), StakePoolError>(StakePoolError::ValidatorStakeStillActive)
        }) by {
            assert(is_first_match(old(validator_list).validators@, *vote_account_address, i));
        }
    }
    result
}

/// Moves `lamports` of a validator's active stake into its derived transient
/// account and starts deactivating it, on the way to the reserve.
///
/// Staker-signed. Fails while a transient account is outstanding, where the
/// amount exceeds the active stake or would not leave the canonical account
/// rent-exempt, or where the amount itself could not keep the transient
/// account rent-exempt with at least one staked lamport.
pub fn decrease_validator_stake(
    pool: &StakePool,
    validator_list: &mut ValidatorList,
    staker_key: &Pubkey,
    staker_is_signer: bool,
    vote_account_address: &Pubkey,
    lamports: u64,
    stake_rent_exemption: u64,
) -> (r: Result<(), StakePoolError>)
    ensures
        pool.staker != *staker_key ==> r == Err::<(), StakePoolError>(StakePoolError::WrongStaker),
        pool.staker == *staker_key && !staker_is_signer ==> r == Err::<(), StakePoolError>(
            StakePoolError::SignatureMissing,
        ),
        spec_staker_ok(*pool, *staker_key, staker_is_signer) ==> {
            &&& (r == Err::<(), StakePoolError>(StakePoolError::ValidatorNotFound)
                <==> !spec_contains_key(old(validator_list).validators@, *vote_account_address))
            &&& forall|i: int|
                #[trigger] is_first_match(old(validator_list).validators@, *vote_account_address, i) ==> {
                    let entry = old(validator_list).validators@[i];
                    if spec_transient_in_use(entry) {
                        r == Err::<(), StakePoolError>(StakePoolError::TransientAccountInUse)
                    } else if lamports < stake_rent_exemption + 1 || lamports
                        > entry.active_stake_lamports || entry.active_stake_lamports - lamports
                        < stake_rent_exemption {
                        r == Err::<(), StakePoolError>(StakePoolError::InsufficientFunds)
                    } else {
                        r is Ok && final(validator_list).validators@ == old(
                            validator_list,
                        ).validators@.update(
                            i,
                            ValidatorStakeInfo {
                                active_stake_lamports: (entry.active_stake_lamports
                                    - lamports) as u64,
                                transient_stake_lamports: lamports,
                                status: StakeStatus::DeactivatingTransient,
                                ..entry
                            },
                        )
                    }
                }
        },
        r is Err ==> *final(validator_list) == *old(validator_list),
        final(validator_list).header == old(validator_list).header,
{
    match pool.check_staker(staker_key, staker_is_signer) {
        Ok(()) => (),
        Err(e) => {
            return Err(e);
        },
    }
    let i = match validator_list.find_index(vote_account_address) {
        Some(i) => i,
        None => {
            return Err(StakePoolError::ValidatorNotFound);
        },
    };
    let entry = validator_list.validators[i];
    if entry.transient_stake_lamports > 0 || !matches!(entry.status, StakeStatus::Active) {
        return Err(StakePoolError::TransientAccountInUse);
    }
    if stake_rent_exemption == u64::MAX || lamports < stake_rent_exemption + 1 {
        return Err(StakePoolError::InsufficientFunds);
    }
    if lamports > entry.active_stake_lamports || entry.active_stake_lamports - lamports
        < stake_rent_exemption {
        return Err(StakePoolError::InsufficientFunds);
    }
    let updated = ValidatorStakeInfo {
        active_stake_lamports: entry.active_stake_lamports - lamports,
        transient_stake_lamports: lamports,
        status: StakeStatus::DeactivatingTransient,
        ..entry
    };
    validator_list.set_entry(i, updated);
    Ok(())
}

/// Moves `lamports` from the reserve into a validator's derived transient
/// account and delegates it; a later balance update folds it into the
/// canonical account.
///
/// Staker-signed. Fails while a transient account is outstanding, where the
/// amount is below the rent-exempt minimum plus the delegation floor, or
/// where the reserve does not hold it.
pub fn increase_validator_stake(
    pool: &StakePool,
    validator_list: &mut ValidatorList,
    staker_key: &Pubkey,
    staker_is_signer: bool,
    vote_account_address: &Pubkey,
    lamports: u64,
    reserve_lamports: u64,
    stake_rent_exemption: u64,
) -> (r: Result<(), StakePoolError>)
    ensures
        pool.staker != *staker_key ==> r == Err::<(), StakePoolError>(StakePoolError::WrongStaker),
        pool.staker == *staker_key && !staker_is_signer ==> r == Err::<(), StakePoolError>(
            StakePoolError::SignatureMissing,
        ),
        spec_staker_ok(*pool, *staker_key, staker_is_signer) ==> {
            &&& (r == Err::<(), StakePoolError>(StakePoolError::ValidatorNotFound)
                <==> !spec_contains_key(old(validator_list).validators@, *vote_account_address))
            &&& forall|i: int|
                #[trigger] is_first_match(old(validator_list).validators@, *vote_account_address, i) ==> {
                    let entry = old(validator_list).validators@[i];
                    if spec_transient_in_use(entry) {
                        r == Err::<(), StakePoolError>(StakePoolError::TransientAccountInUse)
                    } else if lamports < stake_rent_exemption + MINIMUM_ACTIVE_STAKE || lamports
                        > reserve_lamports {
                        r == Err::<(), StakePoolError>(StakePoolError::InsufficientFunds)
                    } else {
                        r is Ok && final(validator_list).validators@ == old(
                            validator_list,
                        ).validators@.update(
                            i,
                            ValidatorStakeInfo { transient_stake_lamports: lamports, ..entry },
                        )
                    }
                }
        },
        r is Err ==> *final(validator_list) == *old(validator_list),
        final(validator_list).header == old(validator_list).header,
{
    match pool.check_staker(staker_key, staker_is_signer) {
        Ok(()) => (),
        Err(e) => {
            return Err(e);
        },
    }
    let i = match validator_list.find_index(vote_account_address) {
        Some(i) => i,
        None => {
            return Err(StakePoolError::ValidatorNotFound);
        },
    };
    let entry = validator_list.validators[i];
    if entry.transient_stake_lamports > 0 || !matches!(entry.status, StakeStatus::Active) {
        return Err(StakePoolError::TransientAccountInUse);
    }
    if (lamports as u128) < (stake_rent_exemption as u128) + (MINIMUM_ACTIVE_STAKE as u128)
        || lamports > reserve_lamports {
        return Err(StakePoolError::InsufficientFunds);
    }
    let updated = ValidatorStakeInfo { transient_stake_lamports: lamports, ..entry };
    validator_list.set_entry(i, updated);
    Ok(())
}

/// Replaces the manager and the fee destination; manager-signed.
pub fn set_manager(
    pool: &mut StakePool,
    manager_key: &Pubkey,
    manager_is_signer: bool,
    new_manager: &Pubkey,
    new_manager_fee_account: &Pubkey,
) -> (r: Result<(), StakePoolError>)
    ensures
        old(pool).manager != *manager_key ==> r == Err::<(), StakePoolError>(
            StakePoolError::WrongManager,
        ),
        old(pool).manager == *manager_key && !manager_is_signer ==> r == Err::<
            (),
            StakePoolError,
        >(StakePoolError::SignatureMissing),
        r is Ok <==> (old(pool).manager == *manager_key && manager_is_signer),
        r is Ok ==> *final(pool) == (StakePool {
            manager: *new_manager,
            manager_fee_account: *new_manager_fee_account,
            ..*old(pool)
        }),
        r is Err ==> *final(pool) == *old(pool),
{
    match pool.check_manager(manager_key, manager_is_signer) {
        Ok(()) => (),
        Err(e) => {
            return Err(e);
        },
    }
    pool.manager = *new_manager;
    pool.manager_fee_account = *new_manager_fee_account;
    Ok(())
}

/// Replaces the staker; signed by the manager or the current staker.
pub fn set_staker(
    pool: &mut StakePool,
    signer_key: &Pubkey,
    signer_is_signer: bool,
    new_staker: &Pubkey,
) -> (r: Result<(), StakePoolError>)
    ensures
        r is Ok <==> ((old(pool).manager == *signer_key || old(pool).staker == *signer_key)
            && signer_is_signer),
        r is Ok ==> *final(pool) == (StakePool { staker: *new_staker, ..*old(pool) }),
        old(pool).manager != *signer_key && old(pool).staker != *signer_key ==> r == Err::<
            (),
            StakePoolError,
        >(StakePoolError::WrongStaker),
        (old(pool).manager == *signer_key || old(pool).staker == *signer_key)
            && !signer_is_signer ==> r == Err::<(), StakePoolError>(
            StakePoolError::SignatureMissing,
        ),
        r is Err ==> *final(pool) == *old(pool),
{
    if !(*signer_key == pool.manager || *signer_key == pool.staker) {
        return Err(StakePoolError::WrongStaker);
    }
    if !signer_is_signer {
        return Err(StakePoolError::SignatureMissing);
    }
    pool.staker = *new_staker;
    Ok(())
}


/// Lifecycle of a native stake account as the engine observes it.
#[derive(Clone, Copy, Debug, PartialEq, Eq, Structural)]
pub enum StakeState {
    /// No stake is delegated, or deactivation has completed.
    Inactive,
    /// Delegated this epoch, not yet earning.
    Activating,
    /// Fully delegated and earning.
    Active,
    /// Deactivation requested, not yet complete.
    Deactivating,
}

/// What the engine reads of one native stake account.
#[derive(Clone, Copy, Debug, PartialEq, Eq, Structural)]
pub struct StakeAccountView {
    /// Lamports the account holds.
    pub lamports: u64,
    /// Where the account stands in the delegation lifecycle.
    pub state: StakeState,
    /// Vote credits observed at the last delegation change; two accounts may
    /// only be merged while these match, or reward accounting would lose
    /// precision.
    pub credits_observed: u64,
}

/// What the engine observes of one validator's pair of stake accounts when
/// refreshing the list.
#[derive(Clone, Copy, Debug)]
pub struct ValidatorBalanceObservation {
    /// The canonical stake account, if it still exists.
    pub canonical: Option<StakeAccountView>,
    /// The derived transient stake account, if one exists.
    pub transient: Option<StakeAccountView>,
}

/// What a balance update asks the external staking service to do for one
/// validator, after the list entry has been rewritten.
#[derive(Clone, Copy, Debug, PartialEq, Eq, Structural)]
pub enum MergeAction {
    /// Nothing to merge this pass.
    Stay,
    /// Merge this many lamports of completed deactivation into the reserve.
    IntoReserve(u64),
    /// Merge this many active transient lamports into the canonical account.
    IntoValidator(u64),
}

/// An entry rebuilt from live balances: stake fields refreshed, the epoch
/// stamped, and a fully drained validator flagged for removal.
pub open spec fn spec_refreshed_entry(
    entry: ValidatorStakeInfo,
    active: u64,
    transient: u64,
    status: StakeStatus,
    epoch: u64,
) -> ValidatorStakeInfo {
    ValidatorStakeInfo {
        active_stake_lamports: active,
        transient_stake_lamports: transient,
        last_update_epoch: epoch,
        status: if active == 0 && transient == 0 {
            StakeStatus::ReadyForRemoval
        } else {
            status
        },
        vote_account_address: entry.vote_account_address,
    }
}

/// One validator's balance update: a transient account that finished
/// deactivating is merged into the reserve; one that is active with matching
/// credits observed is merged into the canonical account; one still in
/// flight, or with differing credits observed, only has the fields
/// refreshed from the live balances. Where no transient account exists any
/// longer the entry returns to the steady state. `None` where a merged
/// balance would not fit in 64 bits.
pub open spec fn spec_update_entry(
    entry: ValidatorStakeInfo,
    observation: ValidatorBalanceObservation,
    current_epoch: u64,
) -> Option<(ValidatorStakeInfo, MergeAction)> {
    let canonical_lamports: u64 = match observation.canonical {
        Some(c) => c.lamports,
        None => 0u64,
    };
    match observation.transient {
        Some(t) => {
            if t.state == StakeState::Inactive {
                Some(
                    (
                        spec_refreshed_entry(
                            entry,
                            canonical_lamports,
                            0,
                            StakeStatus::Active,
                            current_epoch,
                        ),
                        MergeAction::IntoReserve(t.lamports),
                    ),
                )
            } else if t.state == StakeState::Active && observation.canonical is Some
                && t.credits_observed == observation.canonical.unwrap().credits_observed {
                if canonical_lamports + t.lamports > u64::MAX {
                    None
                } else {
                    Some(
                        (
                            spec_refreshed_entry(
                                entry,
                                (canonical_lamports + t.lamports) as u64,
                                0,
                                StakeStatus::Active,
                                current_epoch,
                            ),
                            MergeAction::IntoValidator(t.lamports),
                        ),
                    )
                }
            } else {
                Some(
                    (
                        spec_refreshed_entry(
                            entry,
                            canonical_lamports,
                            t.lamports,
                            entry.status,
                            current_epoch,
                        ),
                        MergeAction::Stay,
                    ),
                )
            }
        },
        None => Some(
            (
                spec_refreshed_entry(
                    entry,
                    canonical_lamports,
                    0,
                    StakeStatus::Active,
                    current_epoch,
                ),
                MergeAction::Stay,
            ),
        ),
    }
}

/// Rebuilds one validator entry from what was observed of its stake
/// accounts, deciding what to merge where.
pub fn update_validator_entry(
    entry: &ValidatorStakeInfo,
    observation: &ValidatorBalanceObservation,
    current_epoch: u64,
) -> (r: Result<(ValidatorStakeInfo, MergeAction), StakePoolError>)
    ensures
        match spec_update_entry(*entry, *observation, current_epoch) {
            Some(updated) => r == Ok::<(ValidatorStakeInfo, MergeAction), StakePoolError>(updated),
            None => r == Err::<(ValidatorStakeInfo, MergeAction), StakePoolError>(
                StakePoolError::CalculationFailure,
            ),
        },
{
    let canonical_lamports: u64 = match observation.canonical {
        Some(c) => c.lamports,
        None => 0,
    };
    match observation.transient {
        Some(t) => {
            if matches!(t.state, StakeState::Inactive) {
                Ok(
                    (
                        refreshed_entry(
                            entry,
                            canonical_lamports,
                            0,
                            StakeStatus::Active,
                            current_epoch,
                        ),
                        MergeAction::IntoReserve(t.lamports),
                    ),
                )
            } else {
                let credits_match = match observation.canonical {
                    Some(c) => matches!(t.state, StakeState::Active) && t.credits_observed
                        == c.credits_observed,
                    None => false,
                };
                if credits_match {
                    if canonical_lamports > u64::MAX - t.lamports {
                        return Err(StakePoolError::CalculationFailure);
                    }
                    Ok(
                        (
                            refreshed_entry(
                                entry,
                                canonical_lamports + t.lamports,
                                0,
                                StakeStatus::Active,
                                current_epoch,
                            ),
                            MergeAction::IntoValidator(t.lamports),
                        ),
                    )
                } else {
                    Ok(
                        (
                            refreshed_entry(
                                entry,
                                canonical_lamports,
                                t.lamports,
                                entry.status,
                                current_epoch,
                            ),
                            MergeAction::Stay,
                        ),
                    )
                }
            }
        },
        None => Ok(
            (
                refreshed_entry(entry, canonical_lamports, 0, StakeStatus::Active, current_epoch),
                MergeAction::Stay,
            ),
        ),
    }
}

/// Builds the refreshed entry, applying the drained-to-removal rule.
fn refreshed_entry(
    entry: &ValidatorStakeInfo,
    active: u64,
    transient: u64,
    status: StakeStatus,
    epoch: u64,
) -> (r: ValidatorStakeInfo)
    ensures
        r == spec_refreshed_entry(*entry, active, transient, status, epoch),
{
    ValidatorStakeInfo {
        active_stake_lamports: active,
        transient_stake_lamports: transient,
        last_update_epoch: epoch,
        status: if active == 0 && transient == 0 {
            StakeStatus::ReadyForRemoval
        } else {
            status
        },
        vote_account_address: entry.vote_account_address,
    }
}


/// Refreshes the entries at `start_index .. start_index + observations.len()`
/// from live balances, one observation per entry in order, and reports what
/// to merge where for each.
///
/// Permissionless: the caller picks the subset to amortize cost across
/// calls, and the list stays consistent because each covered entry is
/// rewritten in full. Fails atomically, leaving the list unchanged, where a
/// merged balance would not fit in 64 bits.
pub fn update_validator_list_balance(
    validator_list: &mut ValidatorList,
    start_index: usize,
    observations: &Vec<ValidatorBalanceObservation>,
    current_epoch: u64,
) -> (r: Result<Vec<MergeAction>, StakePoolError>)
    requires
        start_index + observations@.len() <= old(validator_list).validators@.len(),
    ensures
        final(validator_list).header == old(validator_list).header,
        final(validator_list).validators@.len() == old(validator_list).validators@.len(),
        match r {
            Ok(actions) => {
                &&& actions@.len() == observations@.len()
                &&& forall|k: int|
                    0 <= k < observations@.len() ==> spec_update_entry(
                        old(validator_list).validators@[start_index + k],
                        observations@[k],
                        current_epoch,
                    ) == Some(
                        (final(validator_list).validators@[start_index + k], actions@[k]),
                    )
                &&& forall|j: int|
                    0 <= j < old(validator_list).validators@.len() && !(start_index <= j
                        < start_index + observations@.len())
                        ==> final(validator_list).validators@[j] == old(
                        validator_list,
                    ).validators@[j]
            },
            Err(e) => {
                &&& e == StakePoolError::CalculationFailure
                &&& *final(validator_list) == *old(validator_list)
                &&& exists|k: int|
                    0 <= k < observations@.len() && spec_update_entry(
                        old(validator_list).validators@[start_index + k],
                        #[trigger] observations@[k],
                        current_epoch,
                    ) is None
            },
        },
{
    let n = observations.len();
    let total_entries = validator_list.validators.len();
    let mut updated: Vec<(ValidatorStakeInfo, MergeAction)> = Vec::new();
    let mut k: usize = 0;
    while k < n
        invariant
            n == observations@.len(),
            total_entries == validator_list.validators@.len(),
            start_index + n <= total_entries,
            k <= n,
            updated@.len() == k,
            forall|m: int|
                0 <= m < k ==> spec_update_entry(
                    validator_list.validators@[start_index + m],
                    observations@[m],
                    current_epoch,
                ) == Some((updated@[m].0, updated@[m].1)),
        decreases n - k,
    {
        let entry = validator_list.validators[start_index + k];
        match update_validator_entry(&entry, &observations[k], current_epoch) {
            Ok(pair) => {
                updated.push(pair);
            },
            Err(e) => {
                return Err(e);
            },
        }
        k = k + 1;
    }
    let mut actions: Vec<MergeAction> = Vec::new();
    let ghost entries_before = validator_list.validators@;
    let mut k: usize = 0;
    while k < n
        invariant
            n == observations@.len(),
            n == updated@.len(),
            total_entries == validator_list.validators@.len(),
            start_index + n <= total_entries,
            k <= n,
            actions@.len() == k,
            validator_list.validators@.len() == entries_before.len(),
            validator_list.header == old(validator_list).header,
            forall|m: int|
                0 <= m < n ==> spec_update_entry(
                    entries_before[start_index + m],
                    observations@[m],
                    current_epoch,
                ) == Some((updated@[m].0, updated@[m].1)),
            forall|m: int| 0 <= m < k ==> actions@[m] == updated@[m].1,
            forall|m: int|
                0 <= m < k ==> validator_list.validators@[start_index + m] == updated@[m].0,
            forall|j: int|
                0 <= j < entries_before.len() && !(start_index <= j < start_index + k)
                    ==> validator_list.validators@[j] == entries_before[j],
        decreases n - k,
    {
        let (new_entry, action) = updated[k];
        validator_list.set_entry(start_index + k, new_entry);
        actions.push(action);
        k = k + 1;
    }
    proof {
        assert(entries_before == old(validator_list).validators@);
    }
    Ok(actions)
}


/// Sum of all active and transient lamports across the entries.
pub open spec fn spec_total_stake(s: Seq<ValidatorStakeInfo>) -> int
    decreases s.len(),
{
    if s.len() == 0 {
        0
    } else {
        spec_total_stake(s.drop_last()) + s.last().active_stake_lamports
            + s.last().transient_stake_lamports
    }
}

/// The stake sum is never negative.
proof fn lemma_total_stake_nonneg(s: Seq<ValidatorStakeInfo>)
    ensures
        0 <= spec_total_stake(s),
    decreases s.len(),
{
    if s.len() > 0 {
        lemma_total_stake_nonneg(s.drop_last());
    }
}

/// Extending a prefix by one entry adds that entry's lamports to its sum.
proof fn lemma_total_stake_step(s: Seq<ValidatorStakeInfo>, i: int)
    requires
        0 <= i < s.len(),
    ensures
        spec_total_stake(s.subrange(0, i + 1)) == spec_total_stake(s.subrange(0, i))
            + s[i].active_stake_lamports + s[i].transient_stake_lamports,
{
    let pre = s.subrange(0, i + 1);
    assert(pre.drop_last() =~= s.subrange(0, i));
    assert(pre.last() == s[i]);
}

/// A prefix never sums to more than the whole.
proof fn lemma_total_stake_prefix_le(s: Seq<ValidatorStakeInfo>, i: int)
    requires
        0 <= i <= s.len(),
    ensures
        spec_total_stake(s.subrange(0, i)) <= spec_total_stake(s),
    decreases s.len() - i,
{
    if i == s.len() {
        assert(s.subrange(0, i) =~= s);
    } else {
        lemma_total_stake_step(s, i);
        lemma_total_stake_prefix_le(s, i + 1);
    }
}

/// The list with every entry flagged `ReadyForRemoval` dropped.
pub open spec fn spec_compacted(s: Seq<ValidatorStakeInfo>) -> Seq<ValidatorStakeInfo> {
    s.filter(|e: ValidatorStakeInfo| e.status != StakeStatus::ReadyForRemoval)
}

/// What updating the pool balance yields: the new pool record and the fee
/// tokens to mint, or the one error that stops it.
pub open spec fn spec_update_pool_outcome(
    pool: StakePool,
    entries: Seq<ValidatorStakeInfo>,
    reserve_lamports: u64,
    current_epoch: u64,
) -> Result<(StakePool, u64), StakePoolError> {
    if exists|j: int| 0 <= j < entries.len() && entries[j].last_update_epoch < current_epoch {
        Err(StakePoolError::StakeListOutOfDate)
    } else {
        let total = reserve_lamports + spec_total_stake(entries);
        if total > u64::MAX {
            Err(StakePoolError::CalculationFailure)
        } else {
            let reward: u64 = if total > pool.total_stake_lamports {
                (total - pool.total_stake_lamports) as u64
            } else {
                0u64
            };
            match pool.spec_fee_amount(reward) {
                None => Err(StakePoolError::CalculationFailure),
                Some(fee_tokens) => {
                    if pool.pool_token_supply + fee_tokens > u64::MAX {
                        Err(StakePoolError::CalculationFailure)
                    } else {
                        Ok(
                            (
                                StakePool {
                                    total_stake_lamports: total as u64,
                                    pool_token_supply: (pool.pool_token_supply
                                        + fee_tokens) as u64,
                                    last_update_epoch: current_epoch,
                                    fee: match pool.next_epoch_fee {
                                        Some(f) => f,
                                        None => pool.fee,
                                    },
                                    next_epoch_fee: None,
                                    ..pool
                                },
                                fee_tokens,
                            ),
                        )
                    }
                },
            }
        }
    }
}

/// Recomputes the pool totals from the reserve and every entry, mints the
/// manager's fee on the epoch's reward, applies a pending fee change, stamps
/// the epoch, and drops entries that were flagged for removal. Returns the
/// fee tokens to mint to the manager's fee account.
///
/// Permissionless, but refuses to proceed until every entry reports current
/// for this epoch, so a stale validator can never be priced.
pub fn update_stake_pool_balance(
    pool: &mut StakePool,
    validator_list: &mut ValidatorList,
    reserve_lamports: u64,
    current_epoch: u64,
) -> (r: Result<u64, StakePoolError>)
    ensures
        match spec_update_pool_outcome(
            *old(pool),
            old(validator_list).validators@,
            reserve_lamports,
            current_epoch,
        ) {
            Ok(outcome) => {
                &&& r == Ok::<u64, StakePoolError>(outcome.1)
                &&& *final(pool) == outcome.0
                &&& final(validator_list).validators@ == spec_compacted(
                    old(validator_list).validators@,
                )
                &&& final(validator_list).header == old(validator_list).header
            },
            Err(e) => {
                &&& r == Err::<u64, StakePoolError>(e)
                &&& *final(pool) == *old(pool)
                &&& *final(validator_list) == *old(validator_list)
            },
        },
{
    let n = validator_list.validators.len();
    let ghost entries = validator_list.validators@;
    // Every entry must have been refreshed this epoch.
    let mut i: usize = 0;
    while i < n
        invariant
            n == validator_list.validators@.len(),
            entries == validator_list.validators@,
            i <= n,
            forall|j: int| 0 <= j < i ==> entries[j].last_update_epoch >= current_epoch,
        decreases n - i,
    {
        if validator_list.validators[i].last_update_epoch < current_epoch {
            return Err(StakePoolError::StakeListOutOfDate);
        }
        i = i + 1;
    }
    // Sum the stake under management.
    let mut sum: u64 = 0;
    let mut i: usize = 0;
    while i < n
        invariant
            n == validator_list.validators@.len(),
            entries == validator_list.validators@,
            i <= n,
            forall|j: int| 0 <= j < n ==> entries[j].last_update_epoch >= current_epoch,
            sum == spec_total_stake(entries.subrange(0, i as int)),
        decreases n - i,
    {
        let entry = validator_list.validators[i];
        proof {
            lemma_total_stake_step(entries, i as int);
        }
        let wide: u128 = (sum as u128) + (entry.active_stake_lamports as u128)
            + (entry.transient_stake_lamports as u128);
        if wide > u64::MAX as u128 {
            proof {
                lemma_total_stake_prefix_le(entries, i as int + 1);
                lemma_total_stake_nonneg(entries.subrange(0, i as int));
            }
            return Err(StakePoolError::CalculationFailure);
        }
        sum = wide as u64;
        i = i + 1;
    }
    proof {
        assert(entries.subrange(0, n as int) =~= entries);
        lemma_total_stake_nonneg(entries);
    }
    let total: u64 = match reserve_lamports.checked_add(sum) {
        Some(t) => t,
        None => {
            return Err(StakePoolError::CalculationFailure);
        },
    };
    let reward: u64 = if total > pool.total_stake_lamports {
        total - pool.total_stake_lamports
    } else {
        0
    };
    let fee_tokens: u64 = match pool.calc_fee_amount(reward) {
        Some(f) => f,
        None => {
            return Err(StakePoolError::CalculationFailure);
        },
    };
    let new_supply: u64 = match pool.pool_token_supply.checked_add(fee_tokens) {
        Some(s) => s,
        None => {
            return Err(StakePoolError::CalculationFailure);
        },
    };
    // Drop the entries flagged for removal on the last pass.
    let mut kept: Vec<ValidatorStakeInfo> = Vec::new();
    let mut i: usize = 0;
    while i < n
        invariant
            n == validator_list.validators@.len(),
            entries == validator_list.validators@,
            i <= n,
            kept@ == spec_compacted(entries.subrange(0, i as int)),
        decreases n - i,
    {
        let entry = validator_list.validators[i];
        proof {
            reveal(Seq::filter);
            assert(entries.subrange(0, i as int + 1).drop_last() =~= entries.subrange(0, i as int));
            assert(entries.subrange(0, i as int + 1).last() == entries[i as int]);
        }
        if !matches!(entry.status, StakeStatus::ReadyForRemoval) {
            kept.push(entry);
        }
        i = i + 1;
    }
    proof {
        assert(entries.subrange(0, n as int) =~= entries);
    }
    validator_list.validators = kept;
    pool.total_stake_lamports = total;
    pool.pool_token_supply = new_supply;
    pool.last_update_epoch = current_epoch;
    match pool.next_epoch_fee {
        Some(f) => {
            pool.fee = f;
            pool.next_epoch_fee = None;
        },
        None => (),
    }
    Ok(fee_tokens)
}


/// Merges a user's stake, already delegated to one of the pool's validators,
/// into that validator's canonical account, and mints pool tokens for it at
/// the pre-deposit exchange rate.
///
/// The deposit authority must co-sign; the stake must share the pool's
/// lockup; and the pool totals must have been updated this epoch, or the
/// rate could price against stale values.
pub fn deposit(
    pool: &mut StakePool,
    validator_list: &mut ValidatorList,
    deposit_authority_key: &Pubkey,
    deposit_authority_is_signer: bool,
    vote_account_address: &Pubkey,
    stake_lamports: u64,
    stake_lockup: &crate::state::Lockup,
    current_epoch: u64,
) -> (r: Result<u64, StakePoolError>)
    ensures
        old(pool).deposit_authority != *deposit_authority_key ==> r == Err::<u64, StakePoolError>(
            StakePoolError::InvalidProgramAddress,
        ),
        old(pool).deposit_authority == *deposit_authority_key && !deposit_authority_is_signer
            ==> r == Err::<u64, StakePoolError>(StakePoolError::SignatureMissing),
        old(pool).deposit_authority == *deposit_authority_key && deposit_authority_is_signer
            && old(pool).last_update_epoch < current_epoch ==> r == Err::<u64, StakePoolError>(
            StakePoolError::StakeListAndPoolOutOfDate,
        ),
        old(pool).deposit_authority == *deposit_authority_key && deposit_authority_is_signer
            && old(pool).last_update_epoch >= current_epoch && *stake_lockup != old(pool).lockup
            ==> r == Err::<u64, StakePoolError>(StakePoolError::WrongLockup),
        old(pool).deposit_authority == *deposit_authority_key && deposit_authority_is_signer
            && old(pool).last_update_epoch >= current_epoch && *stake_lockup == old(pool).lockup
            ==> {
            &&& (r == Err::<u64, StakePoolError>(StakePoolError::ValidatorNotFound)
                <==> !spec_contains_key(old(validator_list).validators@, *vote_account_address))
            &&& forall|i: int|
                #[trigger] is_first_match(
                    old(validator_list).validators@,
                    *vote_account_address,
                    i,
                ) ==> {
                    let entry = old(validator_list).validators@[i];
                    match old(pool).spec_tokens_for_deposit(stake_lamports) {
                        None => r == Err::<u64, StakePoolError>(
                            StakePoolError::CalculationFailure,
                        ),
                        Some(tokens) => {
                            if old(pool).pool_token_supply + tokens > u64::MAX || old(
                                pool,
                            ).total_stake_lamports + stake_lamports > u64::MAX
                                || entry.active_stake_lamports + stake_lamports > u64::MAX {
                                r == Err::<u64, StakePoolError>(StakePoolError::CalculationFailure)
                            } else {
                                &&& r == Ok::<u64, StakePoolError>(tokens)
                                &&& *final(pool) == (StakePool {
                                    total_stake_lamports: (old(pool).total_stake_lamports
                                        + stake_lamports) as u64,
                                    pool_token_supply: (old(pool).pool_token_supply
                                        + tokens) as u64,
                                    ..*old(pool)
                                })
                                &&& final(validator_list).validators@ == old(
                                    validator_list,
                                ).validators@.update(
                                    i,
                                    ValidatorStakeInfo {
                                        active_stake_lamports: (entry.active_stake_lamports
                                            + stake_lamports) as u64,
                                        ..entry
                                    },
                                )
                            }
                        },
                    }
                }
        },
        r is Err ==> *final(pool) == *old(pool) && *final(validator_list) == *old(validator_list),
        final(validator_list).header == old(validator_list).header,
{
    match pool.check_deposit_authority(deposit_authority_key) {
        Ok(()) => (),
        Err(e) => {
            return Err(e);
        },
    }
    if !deposit_authority_is_signer {
        return Err(StakePoolError::SignatureMissing);
    }
    if pool.last_update_epoch < current_epoch {
        return Err(StakePoolError::StakeListAndPoolOutOfDate);
    }
    if !stake_lockup.matches(&pool.lockup) {
        return Err(StakePoolError::WrongLockup);
    }
    let i = match validator_list.find_index(vote_account_address) {
        Some(i) => i,
        None => {
            return Err(StakePoolError::ValidatorNotFound);
        },
    };
    let entry = validator_list.validators[i];
    let tokens = match pool.calc_pool_tokens_for_deposit(stake_lamports) {
        Some(t) => t,
        None => {
            return Err(StakePoolError::CalculationFailure);
        },
    };
    let new_supply = match pool.pool_token_supply.checked_add(tokens) {
        Some(s) => s,
        None => {
            return Err(StakePoolError::CalculationFailure);
        },
    };
    let new_total = match pool.total_stake_lamports.checked_add(stake_lamports) {
        Some(t) => t,
        None => {
            return Err(StakePoolError::CalculationFailure);
        },
    };
    let new_active = match entry.active_stake_lamports.checked_add(stake_lamports) {
        Some(a) => a,
        None => {
            return Err(StakePoolError::CalculationFailure);
        },
    };
    validator_list.set_entry(i, ValidatorStakeInfo { active_stake_lamports: new_active, ..entry });
    pool.pool_token_supply = new_supply;
    pool.total_stake_lamports = new_total;
    Ok(tokens)
}

/// Where a withdrawal takes its lamports from.
#[derive(Clone, Copy, Debug)]
pub enum WithdrawSource {
    /// Split from the canonical stake account of this validator.
    Validator(Pubkey),
    /// Split from the reserve; allowed only once no validator holds active
    /// stake.
    Reserve,
}

/// Burns `pool_tokens` and splits the equivalent lamports, at the current
/// exchange rate rounded down, out of a validator's canonical stake account
/// or, only once no validator holds active stake, out of the reserve.
///
/// The pool totals must have been updated this epoch before pricing.
pub fn withdraw(
    pool: &mut StakePool,
    validator_list: &mut ValidatorList,
    source: &WithdrawSource,
    pool_tokens: u64,
    reserve_lamports: u64,
    current_epoch: u64,
) -> (r: Result<u64, StakePoolError>)
    ensures
        old(pool).last_update_epoch < current_epoch ==> r == Err::<u64, StakePoolError>(
            StakePoolError::StakeListAndPoolOutOfDate,
        ),
        old(pool).last_update_epoch >= current_epoch ==> match old(
            pool,
        ).spec_lamports_for_withdraw(pool_tokens) {
            None => r == Err::<u64, StakePoolError>(StakePoolError::CalculationFailure),
            Some(lamports) => {
                &&& (match source {
                    WithdrawSource::Reserve => {
                        if spec_has_active_stake(old(validator_list).validators@) {
                            r == Err::<u64, StakePoolError>(StakePoolError::ActiveStakeRemaining)
                        } else if reserve_lamports < lamports {
                            r == Err::<u64, StakePoolError>(StakePoolError::InsufficientFunds)
                        } else if pool_tokens > old(pool).pool_token_supply || lamports > old(
                            pool,
                        ).total_stake_lamports {
                            r == Err::<u64, StakePoolError>(StakePoolError::CalculationFailure)
                        } else {
                            &&& r == Ok::<u64, StakePoolError>(lamports)
                            &&& *final(validator_list) == *old(validator_list)
                            &&& *final(pool) == (StakePool {
                                total_stake_lamports: (old(pool).total_stake_lamports
                                    - lamports) as u64,
                                pool_token_supply: (old(pool).pool_token_supply
                                    - pool_tokens) as u64,
                                ..*old(pool)
                            })
                        }
                    },
                    WithdrawSource::Validator(vote_account_address) => {
                        &&& (r == Err::<u64, StakePoolError>(StakePoolError::ValidatorNotFound)
                            <==> !spec_contains_key(
                            old(validator_list).validators@,
                            *vote_account_address,
                        ))
                        &&& forall|i: int|
                            #[trigger] is_first_match(
                                old(validator_list).validators@,
                                *vote_account_address,
                                i,
                            ) ==> {
                                let entry = old(validator_list).validators@[i];
                                if entry.active_stake_lamports < lamports {
                                    r == Err::<u64, StakePoolError>(
                                        StakePoolError::InsufficientFunds,
                                    )
                                } else if pool_tokens > old(pool).pool_token_supply || lamports
                                    > old(pool).total_stake_lamports {
                                    r == Err::<u64, StakePoolError>(
                                        StakePoolError::CalculationFailure,
                                    )
                                } else {
                                    &&& r == Ok::<u64, StakePoolError>(lamports)
                                    &&& final(validator_list).validators@ == old(
                                        validator_list,
                                    ).validators@.update(
                                        i,
                                        ValidatorStakeInfo {
                                            active_stake_lamports: (entry.active_stake_lamports
                                                - lamports) as u64,
                                            ..entry
                                        },
                                    )
                                    &&& *final(pool) == (StakePool {
                                        total_stake_lamports: (old(pool).total_stake_lamports
                                            - lamports) as u64,
                                        pool_token_supply: (old(pool).pool_token_supply
                                            - pool_tokens) as u64,
                                        ..*old(pool)
                                    })
                                }
                            }
                    },
                })
            },
        },
        r is Err ==> *final(pool) == *old(pool) && *final(validator_list) == *old(validator_list),
        final(validator_list).header == old(validator_list).header,
{
    if pool.last_update_epoch < current_epoch {
        return Err(StakePoolError::StakeListAndPoolOutOfDate);
    }
    let lamports = match pool.calc_lamports_withdraw_amount(pool_tokens) {
        Some(l) => l,
        None => {
            return Err(StakePoolError::CalculationFailure);
        },
    };
    match source {
        WithdrawSource::Reserve => {
            if validator_list.has_active_stake() {
                return Err(StakePoolError::ActiveStakeRemaining);
            }
            if reserve_lamports < lamports {
                return Err(StakePoolError::InsufficientFunds);
            }
            if pool_tokens > pool.pool_token_supply || lamports > pool.total_stake_lamports {
                return Err(StakePoolError::CalculationFailure);
            }
            pool.total_stake_lamports = pool.total_stake_lamports - lamports;
            pool.pool_token_supply = pool.pool_token_supply - pool_tokens;
            Ok(lamports)
        },
        WithdrawSource::Validator(vote_account_address) => {
            let i = match validator_list.find_index(vote_account_address) {
                Some(i) => i,
                None => {
                    return Err(StakePoolError::ValidatorNotFound);
                },
            };
            let entry = validator_list.validators[i];
            if entry.active_stake_lamports < lamports {
                return Err(StakePoolError::InsufficientFunds);
            }
            if pool_tokens > pool.pool_token_supply || lamports > pool.total_stake_lamports {
                return Err(StakePoolError::CalculationFailure);
            }
            validator_list.set_entry(
                i,
                ValidatorStakeInfo {
                    active_stake_lamports: entry.active_stake_lamports - lamports,
                    ..entry
                },
            );
            pool.total_stake_lamports = pool.total_stake_lamports - lamports;
            pool.pool_token_supply = pool.pool_token_supply - pool_tokens;
            Ok(lamports)
        },
    }
}

} // verus!
