//! The stake pool record and its exchange-rate calculator.

use vstd::prelude::*;

use crate::address::{create_program_address, derived_address, Pubkey};
use crate::error::StakePoolError;
use crate::math::{mul_div, spec_mul_div};

verus! {

broadcast use vstd::array::group_array_axioms;

/// Kind tag of an account managed by the pool program, read before any full
/// decode so that the wrong kind of record is rejected up front.
#[derive(Clone, Copy, Debug, PartialEq, Eq, Structural)]
pub enum AccountType {
    /// The account has not been initialized yet.
    Uninitialized,
    /// The account holds the stake pool record.
    StakePool,
    /// The account holds the validator list.
    ValidatorList,
}

impl Default for AccountType {
    fn default() -> (r: Self)
        ensures
            r == AccountType::Uninitialized,
    {
        AccountType::Uninitialized
    }
}

/// Fee assessed on each epoch's rewards, as a ratio of
/// `numerator / denominator`.
#[derive(Clone, Copy, Debug, PartialEq, Eq, Structural)]
pub struct Fee {
    /// Denominator of the fee ratio.
    pub denominator: u64,
    /// Numerator of the fee ratio.
    pub numerator: u64,
}

impl Default for Fee {
    fn default() -> (r: Self)
        ensures
            r == (Fee { denominator: 0, numerator: 0 }),
    {
        Fee { denominator: 0, numerator: 0 }
    }
}

/// Lockup constraint that every stake account in the pool must share.
#[derive(Clone, Copy, Debug, PartialEq)]
pub struct Lockup {
    /// Unix timestamp before which the stake may not be withdrawn.
    pub unix_timestamp: i64,
    /// Epoch before which the stake may not be withdrawn.
    pub epoch: u64,
    /// Authority allowed to act before the lockup expires.
    pub custodian: Pubkey,
}

impl Lockup {
    /// Whether two lockups are the same constraint.
    pub fn matches(&self, other: &Lockup) -> (r: bool)
        ensures
            r <==> *self == *other,
    {
        let same = self.unix_timestamp == other.unix_timestamp && self.epoch == other.epoch
            && self.custodian == other.custodian;
        same
    }
}

/// The top-level pool record: authorities, references, cached totals and the
/// fee schedule.
///
/// `pool_token_supply` tracks the mint supply exactly, and
/// `total_stake_lamports` is only accurate when `last_update_epoch` matches
/// the current epoch; every consumer must check that staleness condition
/// before pricing against these fields.
#[derive(Clone, Debug, PartialEq)]
pub struct StakePool {
    /// Kind tag, must be `AccountType::StakePool` once initialized.
    pub account_type: AccountType,
    /// Authority allowed to change the staker, manager and fee.
    pub manager: Pubkey,
    /// Authority allowed to add and remove validators and rebalance stake.
    pub staker: Pubkey,
    /// Authority that must co-sign deposits.
    pub deposit_authority: Pubkey,
    /// Bump seed of the derived withdraw authority.
    pub withdraw_bump_seed: u8,
    /// Address of the validator list account.
    pub validator_list: Pubkey,
    /// Address of the reserve stake account, which holds deactivated stake.
    pub reserve_stake: Pubkey,
    /// Address of the pool-share mint.
    pub pool_mint: Pubkey,
    /// Account that receives the manager's fee shares.
    pub manager_fee_account: Pubkey,
    /// Address of the token program that manages the mint.
    pub token_program_id: Pubkey,
    /// Total stake under management as of `last_update_epoch`.
    pub total_stake_lamports: u64,
    /// Total supply of pool tokens, mirroring the mint's supply.
    pub pool_token_supply: u64,
    /// Epoch at which the totals above were last recomputed.
    pub last_update_epoch: u64,
    /// Lockup that all member stakes must share.
    pub lockup: Lockup,
    /// Fee taken on rewards in the current epoch.
    pub fee: Fee,
    /// Fee that takes effect at the next balance update, if any.
    pub next_epoch_fee: Option<Fee>,
    /// Preferred validator for routing deposits, if any.
    pub preferred_deposit_validator_vote_address: Option<Pubkey>,
    /// Preferred validator for routing withdrawals, if any.
    pub preferred_withdraw_validator_vote_address: Option<Pubkey>,
}

impl Default for StakePool {
    fn default() -> (r: Self)
        ensures
            r.account_type == AccountType::Uninitialized,
            r.total_stake_lamports == 0,
            r.pool_token_supply == 0,
            r.last_update_epoch == 0,
            r.withdraw_bump_seed == 0,
            r.fee == (Fee { denominator: 0, numerator: 0 }),
            r.next_epoch_fee is None,
            r.preferred_deposit_validator_vote_address is None,
            r.preferred_withdraw_validator_vote_address is None,
    {
        let zero = Pubkey::new_from_array([0; 32]);
        StakePool {
            account_type: AccountType::Uninitialized,
            manager: zero,
            staker: zero,
            deposit_authority: zero,
            withdraw_bump_seed: 0,
            validator_list: zero,
            reserve_stake: zero,
            pool_mint: zero,
            manager_fee_account: zero,
            token_program_id: zero,
            total_stake_lamports: 0,
            pool_token_supply: 0,
            last_update_epoch: 0,
            lockup: Lockup { unix_timestamp: 0, epoch: 0, custodian: zero },
            fee: Fee { denominator: 0, numerator: 0 },
            next_epoch_fee: None,
            preferred_deposit_validator_vote_address: None,
            preferred_withdraw_validator_vote_address: None,
        }
    }
}

/// The seed bytes of the derived withdraw authority: the ASCII string
/// `withdraw`.
pub open spec fn spec_withdraw_seed() -> Seq<u8> {
    seq![119u8, 105u8, 116u8, 104u8, 100u8, 114u8, 97u8, 119u8]
}

/// The seed bytes of the derived withdraw authority, as a vector.
pub fn withdraw_seed() -> (r: Vec<u8>)
    ensures
        r@ == spec_withdraw_seed(),
{
    let mut v: Vec<u8> = Vec::new();
    v.push(119);
    v.push(105);
    v.push(116);
    v.push(104);
    v.push(100);
    v.push(114);
    v.push(97);
    v.push(119);
    proof {
        assert(v@ =~= spec_withdraw_seed());
    }
    v
}

impl StakePool {
    /// Pool tokens owed for a deposit of `stake_lamports`: one to one while
    /// either total is zero (the bootstrap case), otherwise the current
    /// exchange rate rounded down, and no value at all where the conversion
    /// leaves the 64-bit range.
    pub open spec fn spec_tokens_for_deposit(&self, stake_lamports: u64) -> Option<u64> {
        if self.total_stake_lamports == 0 || self.pool_token_supply == 0 {
            Some(stake_lamports)
        } else {
            let v = spec_mul_div(
                stake_lamports as int,
                self.pool_token_supply as int,
                self.total_stake_lamports as int,
            );
            if v <= u64::MAX {
                Some(v as u64)
            } else {
                None
            }
        }
    }

    /// Calculates the pool tokens that should be minted for a deposit of
    /// `stake_lamports`, at the cached exchange rate.
    pub fn calc_pool_tokens_for_deposit(&self, stake_lamports: u64) -> (r: Option<u64>)
        ensures
            r == self.spec_tokens_for_deposit(stake_lamports),
    {
        if self.total_stake_lamports == 0 || self.pool_token_supply == 0 {
            return Some(stake_lamports);
        }
        mul_div(stake_lamports, self.pool_token_supply, self.total_stake_lamports)
    }

    /// Lamports owed for burning `pool_tokens`: the current exchange rate
    /// rounded down, with no value where the supply is zero or the conversion
    /// leaves the 64-bit range.
    pub open spec fn spec_lamports_for_withdraw(&self, pool_tokens: u64) -> Option<u64> {
        if self.pool_token_supply == 0 {
            None
        } else {
            let v = spec_mul_div(
                pool_tokens as int,
                self.total_stake_lamports as int,
                self.pool_token_supply as int,
            );
            if v <= u64::MAX {
                Some(v as u64)
            } else {
                None
            }
        }
    }

    /// Calculates the lamports paid out for burning `pool_tokens`, at the
    /// cached exchange rate.
    pub fn calc_lamports_withdraw_amount(&self, pool_tokens: u64) -> (r: Option<u64>)
        ensures
            r == self.spec_lamports_for_withdraw(pool_tokens),
    {
        mul_div(pool_tokens, self.total_stake_lamports, self.pool_token_supply)
    }

    /// Manager fee in pool tokens for `reward_lamports` of rewards that have
    /// not yet been added to `total_stake_lamports`: zero where the fee is
    /// unset or there is no reward; otherwise the fee's share of the reward
    /// is converted at the post-reward rate with the fee itself excluded from
    /// the backing, so that the minted shares are diluted exactly as a
    /// deposit of the same size would be. No value is produced where the
    /// arithmetic leaves the representable range.
    pub open spec fn spec_fee_amount(&self, reward_lamports: u64) -> Option<u64> {
        if self.fee.denominator == 0 || reward_lamports == 0 {
            Some(0u64)
        } else {
            let fee_lamports = spec_mul_div(
                reward_lamports as int,
                self.fee.numerator as int,
                self.fee.denominator as int,
            );
            let post_reward_total = self.total_stake_lamports + reward_lamports;
            if fee_lamports > post_reward_total {
                None
            } else if post_reward_total == fee_lamports {
                None
            } else if self.pool_token_supply * fee_lamports > u128::MAX {
                None
            } else {
                let tokens = self.pool_token_supply * fee_lamports / (post_reward_total
                    - fee_lamports);
                if tokens <= u64::MAX {
                    Some(tokens as u64)
                } else {
                    None
                }
            }
        }
    }

    /// Calculates the fee in pool tokens that goes to the manager for this
    /// epoch's `reward_lamports`.
    pub fn calc_fee_amount(&self, reward_lamports: u64) -> (r: Option<u64>)
        ensures
            r == self.spec_fee_amount(reward_lamports),
    {
        if self.fee.denominator == 0 || reward_lamports == 0 {
            return Some(0);
        }
        proof {
            crate::math::lemma_u64_mul_fits(reward_lamports, self.fee.numerator);
        }
        let post_reward_total: u128 = (self.total_stake_lamports as u128) + (reward_lamports
            as u128);
        let fee_lamports: u128 = (reward_lamports as u128) * (self.fee.numerator as u128) / (
        self.fee.denominator as u128);
        if fee_lamports > post_reward_total {
            return None;
        }
        let backing: u128 = post_reward_total - fee_lamports;
        if backing == 0 {
            return None;
        }
        let tokens: u128 = match (self.pool_token_supply as u128).checked_mul(fee_lamports) {
            Some(product) => product / backing,
            None => {
                return None;
            },
        };
        if tokens > u64::MAX as u128 {
            None
        } else {
            Some(tokens as u64)
        }
    }

    /// Whether the record is initialized as a stake pool.
    pub fn is_valid(&self) -> (r: bool)
        ensures
            r <==> self.account_type == AccountType::StakePool,
    {
        self.account_type == AccountType::StakePool
    }

    /// Whether the record is still uninitialized.
    pub fn is_uninitialized(&self) -> (r: bool)
        ensures
            r <==> self.account_type == AccountType::Uninitialized,
    {
        self.account_type == AccountType::Uninitialized
    }
}

/// Whether `authority` is exactly the address derived from the pool address,
/// the given seed and the given bump under `program_id`.
pub open spec fn spec_authority_matches(
    authority: Seq<u8>,
    program_id: Seq<u8>,
    stake_pool_address: Seq<u8>,
    authority_seed: Seq<u8>,
    bump_seed: u8,
) -> bool {
    derived_address(
        seq![stake_pool_address, authority_seed, seq![bump_seed]],
        program_id,
    ) == Some(authority)
}

impl StakePool {
    /// Checks that a claimed authority is the address derived from the pool
    /// address, seed and bump: the authority is recomputed here, never read
    /// from stored state.
    fn check_authority(
        authority_address: &Pubkey,
        program_id: &Pubkey,
        stake_pool_address: &Pubkey,
        authority_seed: &[u8],
        bump_seed: u8,
    ) -> (r: Result<(), StakePoolError>)
        ensures
            r is Ok <==> spec_authority_matches(
                authority_address@,
                program_id@,
                stake_pool_address@,
                authority_seed@,
                bump_seed,
            ),
            r is Err ==> r == Err::<(), StakePoolError>(StakePoolError::InvalidProgramAddress),
    {
        let mut seeds: Vec<Vec<u8>> = Vec::new();
        seeds.push(vstd::slice::slice_to_vec(stake_pool_address.bytes.as_slice()));
        seeds.push(vstd::slice::slice_to_vec(authority_seed));
        let mut bump: Vec<u8> = Vec::new();
        bump.push(bump_seed);
        seeds.push(bump);
        proof {
            assert(seeds@.map_values(|s: Vec<u8>| s@) =~= seq![
                stake_pool_address@,
                authority_seed@,
                seq![bump_seed],
            ]);
        }
        match create_program_address(&seeds, program_id) {
            Some(expected) => {
                if expected == *authority_address {
                    Ok(())
                } else {
                    proof {
                        if expected@ == authority_address@ {
                            assert(expected.bytes =~= authority_address.bytes);
                        }
                    }
                    Err(StakePoolError::InvalidProgramAddress)
                }
            },
            None => Err(StakePoolError::InvalidProgramAddress),
        }
    }

    /// Checks that the claimed withdraw authority is the one derived for this
    /// pool.
    pub fn check_authority_withdraw(
        &self,
        withdraw_authority: &Pubkey,
        program_id: &Pubkey,
        stake_pool_address: &Pubkey,
    ) -> (r: Result<(), StakePoolError>)
        ensures
            r is Ok <==> spec_authority_matches(
                withdraw_authority@,
                program_id@,
                stake_pool_address@,
                spec_withdraw_seed(),
                self.withdraw_bump_seed,
            ),
            r is Err ==> r == Err::<(), StakePoolError>(StakePoolError::InvalidProgramAddress),
    {
        let seed = withdraw_seed();
        Self::check_authority(
            withdraw_authority,
            program_id,
            stake_pool_address,
            seed.as_slice(),
            self.withdraw_bump_seed,
        )
    }

    /// Checks that the claimed deposit authority is the pool's.
    pub fn check_deposit_authority(&self, deposit_authority: &Pubkey) -> (r: Result<
        (),
        StakePoolError,
    >)
        ensures
            r is Ok <==> self.deposit_authority == *deposit_authority,
            r is Err ==> r == Err::<(), StakePoolError>(StakePoolError::InvalidProgramAddress),
    {
        if self.deposit_authority == *deposit_authority {
            Ok(())
        } else {
            Err(StakePoolError::InvalidProgramAddress)
        }
    }

    /// Checks that the supplied mint is the pool's mint.
    pub fn check_mint(&self, mint_key: &Pubkey) -> (r: Result<(), StakePoolError>)
        ensures
            r is Ok <==> self.pool_mint == *mint_key,
            r is Err ==> r == Err::<(), StakePoolError>(StakePoolError::WrongPoolMint),
    {
        if *mint_key == self.pool_mint {
            Ok(())
        } else {
            Err(StakePoolError::WrongPoolMint)
        }
    }

    /// Checks the manager's identity and signature.
    pub fn check_manager(&self, manager_key: &Pubkey, manager_is_signer: bool) -> (r: Result<
        (),
        StakePoolError,
    >)
        ensures
            r is Ok <==> (self.manager == *manager_key && manager_is_signer),
            self.manager != *manager_key ==> r == Err::<(), StakePoolError>(
                StakePoolError::WrongManager,
            ),
            self.manager == *manager_key && !manager_is_signer ==> r == Err::<
                (),
                StakePoolError,
            >(StakePoolError::SignatureMissing),
    {
        if *manager_key != self.manager {
            return Err(StakePoolError::WrongManager);
        }
        if !manager_is_signer {
            return Err(StakePoolError::SignatureMissing);
        }
        Ok(())
    }

    /// Checks the staker's identity and signature.
    pub fn check_staker(&self, staker_key: &Pubkey, staker_is_signer: bool) -> (r: Result<
        (),
        StakePoolError,
    >)
        ensures
            r is Ok <==> (self.staker == *staker_key && staker_is_signer),
            self.staker != *staker_key ==> r == Err::<(), StakePoolError>(
                StakePoolError::WrongStaker,
            ),
            self.staker == *staker_key && !staker_is_signer ==> r == Err::<(), StakePoolError>(
                StakePoolError::SignatureMissing,
            ),
    {
        if *staker_key != self.staker {
            return Err(StakePoolError::WrongStaker);
        }
        if !staker_is_signer {
            return Err(StakePoolError::SignatureMissing);
        }
        Ok(())
    }

    /// Checks that the supplied validator list account is the pool's.
    pub fn check_validator_list(&self, validator_list_key: &Pubkey) -> (r: Result<
        (),
        StakePoolError,
    >)
        ensures
            r is Ok <==> self.validator_list == *validator_list_key,
            r is Err ==> r == Err::<(), StakePoolError>(StakePoolError::InvalidValidatorStakeList),
    {
        if *validator_list_key == self.validator_list {
            Ok(())
        } else {
            Err(StakePoolError::InvalidValidatorStakeList)
        }
    }

    /// Checks that the supplied reserve stake account is the pool's.
    pub fn check_reserve_stake(&self, reserve_stake_key: &Pubkey) -> (r: Result<
        (),
        StakePoolError,
    >)
        ensures
            r is Ok <==> self.reserve_stake == *reserve_stake_key,
            r is Err ==> r == Err::<(), StakePoolError>(StakePoolError::InvalidProgramAddress),
    {
        if *reserve_stake_key == self.reserve_stake {
            Ok(())
        } else {
            Err(StakePoolError::InvalidProgramAddress)
        }
    }
}

} // verus!
