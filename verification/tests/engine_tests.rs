//! Tests of the rebalancing engine's state transitions.

use stake_pool::address::Pubkey;
use stake_pool::engine;
use stake_pool::engine::MergeAction;
use stake_pool::engine::StakeAccountView;
use stake_pool::engine::StakeState;
use stake_pool::engine::ValidatorBalanceObservation;
use stake_pool::engine::WithdrawSource;
use stake_pool::error::StakePoolError;
use stake_pool::state::Fee;
use stake_pool::state::Lockup;
use stake_pool::state::StakePool;
use stake_pool::validator_list::StakeStatus;
use stake_pool::validator_list::ValidatorList;
use stake_pool::validator_list::ValidatorListHeader;
use stake_pool::validator_list::ValidatorStakeInfo;
use stake_pool::MINIMUM_ACTIVE_STAKE;

const RENT: u64 = 2_282_880;

fn staker() -> Pubkey {
    Pubkey::new_from_array([11; 32])
}

fn vote(n: u8) -> Pubkey {
    Pubkey::new_from_array([n; 32])
}

fn pool() -> StakePool {
    StakePool {
        staker: staker(),
        manager: Pubkey::new_from_array([12; 32]),
        deposit_authority: Pubkey::new_from_array([13; 32]),
        ..StakePool::default()
    }
}

fn list_with(entries: Vec<ValidatorStakeInfo>) -> ValidatorList {
    ValidatorList {
        header: ValidatorListHeader {
            account_type: stake_pool::state::AccountType::ValidatorList,
            max_validators: 8,
        },
        validators: entries,
    }
}

fn entry(n: u8, active: u64, transient: u64, status: StakeStatus) -> ValidatorStakeInfo {
    ValidatorStakeInfo {
        active_stake_lamports: active,
        transient_stake_lamports: transient,
        last_update_epoch: 0,
        status,
        vote_account_address: vote(n),
    }
}

fn add(
    pool: &StakePool,
    list: &mut ValidatorList,
    staker_key: &Pubkey,
    signed: bool,
    vote_key: &Pubkey,
) -> Result<(), StakePoolError> {
    let deposit_authority = pool.deposit_authority;
    engine::add_validator_to_pool(
        pool,
        list,
        staker_key,
        signed,
        vote_key,
        Some(vote_key),
        &deposit_authority,
    )
}

#[test]
fn add_validator_appends_zeroed_entry() {
    let pool = pool();
    let mut list = list_with(vec![]);
    assert_eq!(add(&pool, &mut list, &staker(), true, &vote(1)), Ok(()));
    assert_eq!(list.validators.len(), 1);
    let added = &list.validators[0];
    assert_eq!(added.vote_account_address, vote(1));
    assert_eq!(added.active_stake_lamports, 0);
    assert_eq!(added.transient_stake_lamports, 0);
    assert_eq!(added.status, StakeStatus::Active);
    // Already tracked.
    assert_eq!(
        add(&pool, &mut list, &staker(), true, &vote(1)),
        Err(StakePoolError::ValidatorAlreadyAdded)
    );
    // Wrong staker, then a missing signature.
    assert_eq!(
        add(&pool, &mut list, &vote(9), true, &vote(2)),
        Err(StakePoolError::WrongStaker)
    );
    assert_eq!(
        add(&pool, &mut list, &staker(), false, &vote(2)),
        Err(StakePoolError::SignatureMissing)
    );
    assert_eq!(list.validators.len(), 1);
}

#[test]
fn add_validator_checks_the_stake_account() {
    let pool = pool();
    let mut list = list_with(vec![]);
    let deposit_authority = pool.deposit_authority;
    // Not delegated at all, or delegated to another validator.
    assert_eq!(
        engine::add_validator_to_pool(
            &pool,
            &mut list,
            &staker(),
            true,
            &vote(1),
            None,
            &deposit_authority
        ),
        Err(StakePoolError::WrongStakeState)
    );
    assert_eq!(
        engine::add_validator_to_pool(
            &pool,
            &mut list,
            &staker(),
            true,
            &vote(1),
            Some(&vote(2)),
            &deposit_authority
        ),
        Err(StakePoolError::WrongStakeState)
    );
    // Withdraw authority not handed to the pool's deposit authority.
    assert_eq!(
        engine::add_validator_to_pool(
            &pool,
            &mut list,
            &staker(),
            true,
            &vote(1),
            Some(&vote(1)),
            &vote(9)
        ),
        Err(StakePoolError::InvalidProgramAddress)
    );
    assert!(list.validators.is_empty());
}

#[test]
fn add_validator_respects_capacity() {
    let pool = pool();
    let mut list = list_with(vec![]);
    list.header.max_validators = 1;
    assert_eq!(add(&pool, &mut list, &staker(), true, &vote(1)), Ok(()));
    assert_eq!(
        add(&pool, &mut list, &staker(), true, &vote(2)),
        Err(StakePoolError::MaxValidatorsReached)
    );
}

#[test]
fn remove_validator_requires_decommissioned_stake() {
    let pool = pool();
    let mut list = list_with(vec![
        entry(1, 5, 0, StakeStatus::Active),
        entry(2, 0, 0, StakeStatus::Active),
    ]);
    assert_eq!(
        engine::remove_validator_from_pool(&pool, &mut list, &staker(), true, &vote(1)),
        Err(StakePoolError::ValidatorStakeStillActive)
    );
    assert_eq!(
        engine::remove_validator_from_pool(&pool, &mut list, &staker(), true, &vote(3)),
        Err(StakePoolError::ValidatorNotFound)
    );
    assert_eq!(
        engine::remove_validator_from_pool(&pool, &mut list, &staker(), true, &vote(2)),
        Ok(())
    );
    assert_eq!(list.validators.len(), 1);
    assert_eq!(list.validators[0].vote_account_address, vote(1));
}

#[test]
fn decrease_validator_stake_splits_into_transient() {
    let pool = pool();
    let mut list = list_with(vec![entry(1, 10 * RENT, 0, StakeStatus::Active)]);
    assert_eq!(
        engine::decrease_validator_stake(
            &pool,
            &mut list,
            &staker(),
            true,
            &vote(1),
            3 * RENT,
            RENT
        ),
        Ok(())
    );
    let e = &list.validators[0];
    assert_eq!(e.active_stake_lamports, 7 * RENT);
    assert_eq!(e.transient_stake_lamports, 3 * RENT);
    assert_eq!(e.status, StakeStatus::DeactivatingTransient);
}

#[test]
fn decrease_validator_stake_rejects_bad_amounts() {
    let pool = pool();
    let mut list = list_with(vec![entry(1, 10 * RENT, 0, StakeStatus::Active)]);
    // Less than the rent-exempt minimum plus one cannot move.
    assert_eq!(
        engine::decrease_validator_stake(&pool, &mut list, &staker(), true, &vote(1), RENT, RENT),
        Err(StakePoolError::InsufficientFunds)
    );
    // More than the active stake cannot move.
    assert_eq!(
        engine::decrease_validator_stake(
            &pool,
            &mut list,
            &staker(),
            true,
            &vote(1),
            11 * RENT,
            RENT
        ),
        Err(StakePoolError::InsufficientFunds)
    );
    // What stays behind must remain rent-exempt.
    assert_eq!(
        engine::decrease_validator_stake(
            &pool,
            &mut list,
            &staker(),
            true,
            &vote(1),
            10 * RENT - 1,
            RENT
        ),
        Err(StakePoolError::InsufficientFunds)
    );
    // Draining to exactly the rent-exempt minimum is allowed.
    assert_eq!(
        engine::decrease_validator_stake(
            &pool,
            &mut list,
            &staker(),
            true,
            &vote(1),
            9 * RENT,
            RENT
        ),
        Ok(())
    );
    assert_eq!(list.validators[0].active_stake_lamports, RENT);
}

#[test]
fn transient_exclusivity_gates_both_rebalances() {
    let pool = pool();
    // A transient balance in flight blocks both operations, whatever else holds.
    let mut list = list_with(vec![entry(1, 10 * RENT, 7, StakeStatus::Active)]);
    assert_eq!(
        engine::decrease_validator_stake(
            &pool,
            &mut list,
            &staker(),
            true,
            &vote(1),
            3 * RENT,
            RENT
        ),
        Err(StakePoolError::TransientAccountInUse)
    );
    assert_eq!(
        engine::increase_validator_stake(
            &pool,
            &mut list,
            &staker(),
            true,
            &vote(1),
            RENT + MINIMUM_ACTIVE_STAKE,
            u64::MAX,
            RENT
        ),
        Err(StakePoolError::TransientAccountInUse)
    );
    // A mid-lifecycle entry blocks them too, even with zero transient lamports.
    let mut list = list_with(vec![entry(1, 10 * RENT, 0, StakeStatus::DeactivatingTransient)]);
    assert_eq!(
        engine::decrease_validator_stake(
            &pool,
            &mut list,
            &staker(),
            true,
            &vote(1),
            3 * RENT,
            RENT
        ),
        Err(StakePoolError::TransientAccountInUse)
    );
    assert_eq!(
        engine::increase_validator_stake(
            &pool,
            &mut list,
            &staker(),
            true,
            &vote(1),
            RENT + MINIMUM_ACTIVE_STAKE,
            u64::MAX,
            RENT
        ),
        Err(StakePoolError::TransientAccountInUse)
    );
}

#[test]
fn increase_validator_stake_delegates_from_reserve() {
    let pool = pool();
    let mut list = list_with(vec![entry(1, 0, 0, StakeStatus::Active)]);
    let amount = RENT + MINIMUM_ACTIVE_STAKE;
    // Below the floor.
    assert_eq!(
        engine::increase_validator_stake(
            &pool,
            &mut list,
            &staker(),
            true,
            &vote(1),
            amount - 1,
            u64::MAX,
            RENT
        ),
        Err(StakePoolError::InsufficientFunds)
    );
    // More than the reserve holds.
    assert_eq!(
        engine::increase_validator_stake(
            &pool,
            &mut list,
            &staker(),
            true,
            &vote(1),
            amount,
            amount - 1,
            RENT
        ),
        Err(StakePoolError::InsufficientFunds)
    );
    assert_eq!(
        engine::increase_validator_stake(
            &pool,
            &mut list,
            &staker(),
            true,
            &vote(1),
            amount,
            amount,
            RENT
        ),
        Ok(())
    );
    assert_eq!(list.validators[0].transient_stake_lamports, amount);
    assert_eq!(list.validators[0].status, StakeStatus::Active);
    assert_eq!(
        engine::increase_validator_stake(
            &pool,
            &mut list,
            &staker(),
            true,
            &vote(2),
            amount,
            amount,
            RENT
        ),
        Err(StakePoolError::ValidatorNotFound)
    );
}

#[test]
fn balance_update_merges_inactive_transient_into_reserve() {
    let mut list = list_with(vec![entry(1, 50, 40, StakeStatus::DeactivatingTransient)]);
    let observations = vec![ValidatorBalanceObservation {
        canonical: Some(StakeAccountView {
            lamports: 50,
            state: StakeState::Active,
            credits_observed: 7,
        }),
        transient: Some(StakeAccountView {
            lamports: 40,
            state: StakeState::Inactive,
            credits_observed: 7,
        }),
    }];
    let actions = engine::update_validator_list_balance(&mut list, 0, &observations, 3).unwrap();
    assert_eq!(actions, vec![MergeAction::IntoReserve(40)]);
    let e = &list.validators[0];
    assert_eq!(e.active_stake_lamports, 50);
    assert_eq!(e.transient_stake_lamports, 0);
    assert_eq!(e.status, StakeStatus::Active);
    assert_eq!(e.last_update_epoch, 3);
}

#[test]
fn balance_update_merges_active_transient_on_matching_credits() {
    let mut list = list_with(vec![entry(1, 50, 40, StakeStatus::Active)]);
    let observations = vec![ValidatorBalanceObservation {
        canonical: Some(StakeAccountView {
            lamports: 52,
            state: StakeState::Active,
            credits_observed: 7,
        }),
        transient: Some(StakeAccountView {
            lamports: 41,
            state: StakeState::Active,
            credits_observed: 7,
        }),
    }];
    let actions = engine::update_validator_list_balance(&mut list, 0, &observations, 3).unwrap();
    assert_eq!(actions, vec![MergeAction::IntoValidator(41)]);
    let e = &list.validators[0];
    assert_eq!(e.active_stake_lamports, 93);
    assert_eq!(e.transient_stake_lamports, 0);
    assert_eq!(e.status, StakeStatus::Active);
}

#[test]
fn balance_update_leaves_mismatched_credits_unmerged() {
    // Merging active transient stake on differing credits observed would lose
    // reward accounting; the entry is only refreshed.
    let mut list = list_with(vec![entry(1, 50, 40, StakeStatus::Active)]);
    let observations = vec![ValidatorBalanceObservation {
        canonical: Some(StakeAccountView {
            lamports: 52,
            state: StakeState::Active,
            credits_observed: 7,
        }),
        transient: Some(StakeAccountView {
            lamports: 41,
            state: StakeState::Active,
            credits_observed: 8,
        }),
    }];
    let actions = engine::update_validator_list_balance(&mut list, 0, &observations, 3).unwrap();
    assert_eq!(actions, vec![MergeAction::Stay]);
    let e = &list.validators[0];
    assert_eq!(e.active_stake_lamports, 52);
    assert_eq!(e.transient_stake_lamports, 41);
    assert_eq!(e.status, StakeStatus::Active);
    assert_eq!(e.last_update_epoch, 3);
}

#[test]
fn balance_update_flags_drained_validator_for_removal() {
    let mut list = list_with(vec![
        entry(1, 50, 0, StakeStatus::Active),
        entry(2, 60, 0, StakeStatus::Active),
    ]);
    let observations = vec![ValidatorBalanceObservation {
        canonical: None,
        transient: None,
    }];
    // Only the second entry is covered by this call.
    let actions = engine::update_validator_list_balance(&mut list, 1, &observations, 9).unwrap();
    assert_eq!(actions, vec![MergeAction::Stay]);
    assert_eq!(list.validators[0].active_stake_lamports, 50);
    assert_eq!(list.validators[0].last_update_epoch, 0);
    let e = &list.validators[1];
    assert_eq!(e.active_stake_lamports, 0);
    assert_eq!(e.status, StakeStatus::ReadyForRemoval);
    assert_eq!(e.last_update_epoch, 9);
}

#[test]
fn pool_update_requires_current_entries() {
    let mut pool = pool();
    let mut stale = list_with(vec![entry(1, 50, 0, StakeStatus::Active)]);
    assert_eq!(
        engine::update_stake_pool_balance(&mut pool, &mut stale, 0, 1),
        Err(StakePoolError::StakeListOutOfDate)
    );
}

#[test]
fn pool_update_recomputes_totals_and_mints_fee() {
    let mut pool = StakePool {
        total_stake_lamports: 100,
        pool_token_supply: 100,
        fee: Fee {
            numerator: 1,
            denominator: 10,
        },
        next_epoch_fee: Some(Fee {
            numerator: 1,
            denominator: 5,
        }),
        ..pool()
    };
    let mut list = list_with(vec![
        entry(1, 40, 15, StakeStatus::Active),
        entry(2, 0, 0, StakeStatus::ReadyForRemoval),
    ]);
    // reserve 55 + validators 55 = 110: a reward of 10 over the cached total.
    let fee_tokens = engine::update_stake_pool_balance(&mut pool, &mut list, 55, 0).unwrap();
    // fee lamports: floor(10 / 10) = 1; tokens: floor(100 * 1 / 109) = 0.
    assert_eq!(fee_tokens, 0);
    assert_eq!(pool.total_stake_lamports, 110);
    assert_eq!(pool.pool_token_supply, 100);
    assert_eq!(pool.last_update_epoch, 0);
    // The pending fee took effect and the flagged entry was dropped.
    assert_eq!(
        pool.fee,
        Fee {
            numerator: 1,
            denominator: 5,
        }
    );
    assert_eq!(pool.next_epoch_fee, None);
    assert_eq!(list.validators.len(), 1);
    assert_eq!(list.validators[0].vote_account_address, vote(1));
}

#[test]
fn end_to_end_reward_then_deposit() {
    // A pool of 100 lamports backing 100 shares with a one-tenth fee earns a
    // reward of 10: the manager's fee is minted against the post-reward pool,
    // and a deposit of 55 afterwards is priced at the new rate.
    let mut pool = StakePool {
        total_stake_lamports: 100,
        pool_token_supply: 100,
        fee: Fee {
            numerator: 1,
            denominator: 10,
        },
        lockup: Lockup {
            unix_timestamp: 0,
            epoch: 0,
            custodian: Pubkey::new_from_array([0; 32]),
        },
        ..pool()
    };
    let mut list = list_with(vec![entry(1, 80, 0, StakeStatus::Active)]);
    // reserve 30 + active 80 = 110.
    let fee_tokens = engine::update_stake_pool_balance(&mut pool, &mut list, 30, 0).unwrap();
    assert_eq!(pool.total_stake_lamports, 110);
    assert_eq!(pool.pool_token_supply, 100 + fee_tokens);
    let lockup = pool.lockup;
    let tokens = engine::deposit(
        &mut pool,
        &mut list,
        &Pubkey::new_from_array([13; 32]),
        true,
        &vote(1),
        55,
        &lockup,
        0,
    )
    .unwrap();
    assert_eq!(tokens as u128, 55 * (100 + fee_tokens as u128) / 110);
    assert_eq!(pool.total_stake_lamports, 165);
    assert_eq!(pool.pool_token_supply, 100 + fee_tokens + tokens);
    assert_eq!(list.validators[0].active_stake_lamports, 135);
}

#[test]
fn deposit_checks_gatekeepers() {
    let mut pool = StakePool {
        total_stake_lamports: 100,
        pool_token_supply: 100,
        ..pool()
    };
    let mut list = list_with(vec![entry(1, 80, 0, StakeStatus::Active)]);
    let authority = Pubkey::new_from_array([13; 32]);
    let lockup = pool.lockup;
    // Wrong deposit authority, then a missing signature.
    assert_eq!(
        engine::deposit(&mut pool, &mut list, &vote(9), true, &vote(1), 5, &lockup, 0),
        Err(StakePoolError::InvalidProgramAddress)
    );
    assert_eq!(
        engine::deposit(&mut pool, &mut list, &authority, false, &vote(1), 5, &lockup, 0),
        Err(StakePoolError::SignatureMissing)
    );
    // Stale pool totals.
    assert_eq!(
        engine::deposit(&mut pool, &mut list, &authority, true, &vote(1), 5, &lockup, 1),
        Err(StakePoolError::StakeListAndPoolOutOfDate)
    );
    // Mismatched lockup.
    let wrong_lockup = Lockup {
        epoch: 99,
        ..lockup
    };
    assert_eq!(
        engine::deposit(&mut pool, &mut list, &authority, true, &vote(1), 5, &wrong_lockup, 0),
        Err(StakePoolError::WrongLockup)
    );
    // Untracked validator.
    assert_eq!(
        engine::deposit(&mut pool, &mut list, &authority, true, &vote(2), 5, &lockup, 0),
        Err(StakePoolError::ValidatorNotFound)
    );
    // All gates pass.
    assert_eq!(
        engine::deposit(&mut pool, &mut list, &authority, true, &vote(1), 5, &lockup, 0),
        Ok(5)
    );
}

#[test]
fn withdraw_from_validator_splits_active_stake() {
    let mut pool = StakePool {
        total_stake_lamports: 200,
        pool_token_supply: 100,
        ..pool()
    };
    let mut list = list_with(vec![entry(1, 150, 0, StakeStatus::Active)]);
    // 10 shares of a pool worth 200 backing 100 shares: 20 lamports.
    let lamports = engine::withdraw(
        &mut pool,
        &mut list,
        &WithdrawSource::Validator(vote(1)),
        10,
        0,
        0,
    )
    .unwrap();
    assert_eq!(lamports, 20);
    assert_eq!(pool.total_stake_lamports, 180);
    assert_eq!(pool.pool_token_supply, 90);
    assert_eq!(list.validators[0].active_stake_lamports, 130);
    // More than the validator's active stake.
    assert_eq!(
        engine::withdraw(
            &mut pool,
            &mut list,
            &WithdrawSource::Validator(vote(1)),
            90,
            0,
            0
        ),
        Err(StakePoolError::InsufficientFunds)
    );
    // Unknown validator.
    assert_eq!(
        engine::withdraw(
            &mut pool,
            &mut list,
            &WithdrawSource::Validator(vote(2)),
            10,
            0,
            0
        ),
        Err(StakePoolError::ValidatorNotFound)
    );
    // Stale totals.
    assert_eq!(
        engine::withdraw(
            &mut pool,
            &mut list,
            &WithdrawSource::Validator(vote(1)),
            10,
            0,
            5
        ),
        Err(StakePoolError::StakeListAndPoolOutOfDate)
    );
}

#[test]
fn withdraw_from_reserve_is_gated_on_active_stake() {
    let mut pool = StakePool {
        total_stake_lamports: 200,
        pool_token_supply: 100,
        ..pool()
    };
    // Active stake remains: the reserve is closed, however full it is.
    let mut list = list_with(vec![entry(1, 150, 0, StakeStatus::Active)]);
    assert_eq!(
        engine::withdraw(&mut pool, &mut list, &WithdrawSource::Reserve, 10, u64::MAX, 0),
        Err(StakePoolError::ActiveStakeRemaining)
    );
    // No active stake: the reserve opens.
    let mut list = list_with(vec![entry(1, 0, 50, StakeStatus::DeactivatingTransient)]);
    assert_eq!(
        engine::withdraw(&mut pool, &mut list, &WithdrawSource::Reserve, 10, 19, 0),
        Err(StakePoolError::InsufficientFunds)
    );
    assert_eq!(
        engine::withdraw(&mut pool, &mut list, &WithdrawSource::Reserve, 10, 50, 0),
        Ok(20)
    );
    assert_eq!(pool.total_stake_lamports, 180);
    assert_eq!(pool.pool_token_supply, 90);
}

#[test]
fn set_manager_and_staker_check_authority() {
    let manager = Pubkey::new_from_array([12; 32]);
    let new_manager = Pubkey::new_from_array([21; 32]);
    let new_fee_account = Pubkey::new_from_array([22; 32]);
    let mut p = pool();
    assert_eq!(
        engine::set_manager(&mut p, &staker(), true, &new_manager, &new_fee_account),
        Err(StakePoolError::WrongManager)
    );
    assert_eq!(
        engine::set_manager(&mut p, &manager, false, &new_manager, &new_fee_account),
        Err(StakePoolError::SignatureMissing)
    );
    assert_eq!(
        engine::set_manager(&mut p, &manager, true, &new_manager, &new_fee_account),
        Ok(())
    );
    assert_eq!(p.manager, new_manager);
    assert_eq!(p.manager_fee_account, new_fee_account);

    let new_staker = Pubkey::new_from_array([23; 32]);
    assert_eq!(
        engine::set_staker(&mut p, &vote(9), true, &new_staker),
        Err(StakePoolError::WrongStaker)
    );
    // The current staker may hand over.
    assert_eq!(engine::set_staker(&mut p, &staker(), true, &new_staker), Ok(()));
    assert_eq!(p.staker, new_staker);
    // The manager may as well.
    assert_eq!(engine::set_staker(&mut p, &new_manager, true, &staker()), Ok(()));
    assert_eq!(p.staker, staker());
}

#[test]
fn entry_update_overflow_is_atomic() {
    let mut list = list_with(vec![
        entry(1, 1, 1, StakeStatus::Active),
        entry(2, 5, 5, StakeStatus::Active),
    ]);
    let observations = vec![
        ValidatorBalanceObservation {
            canonical: Some(StakeAccountView {
                lamports: 3,
                state: StakeState::Active,
                credits_observed: 1,
            }),
            transient: None,
        },
        ValidatorBalanceObservation {
            canonical: Some(StakeAccountView {
                lamports: u64::MAX,
                state: StakeState::Active,
                credits_observed: 1,
            }),
            transient: Some(StakeAccountView {
                lamports: 1,
                state: StakeState::Active,
                credits_observed: 1,
            }),
        },
    ];
    let before = list.clone();
    assert_eq!(
        engine::update_validator_list_balance(&mut list, 0, &observations, 1),
        Err(StakePoolError::CalculationFailure)
    );
    assert_eq!(list, before);
}
