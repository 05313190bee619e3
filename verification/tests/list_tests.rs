//! Tests of the validator list store and its flat packed layout.

use stake_pool::address::Pubkey;
use stake_pool::error::StakePoolError;
use stake_pool::pack::IsInitialized;
use stake_pool::layout::read_header;
use stake_pool::layout::read_entries;
use stake_pool::layout::deserialize_validator_list;
use stake_pool::state::AccountType;
use stake_pool::validator_list::StakeStatus;
use stake_pool::validator_list::ValidatorList;
use stake_pool::validator_list::ValidatorListHeader;
use stake_pool::validator_list::ValidatorStakeInfo;

fn uninitialized_validator_list() -> ValidatorList {
    ValidatorList {
        header: ValidatorListHeader {
            account_type: AccountType::Uninitialized,
            max_validators: 0,
        },
        validators: vec![],
    }
}

fn test_validator_list(max_validators: u32) -> ValidatorList {
    ValidatorList {
        header: ValidatorListHeader {
            account_type: AccountType::ValidatorList,
            max_validators,
        },
        validators: vec![
            ValidatorStakeInfo {
                status: StakeStatus::Active,
                vote_account_address: Pubkey::new_from_array([1; 32]),
                active_stake_lamports: 123456789,
                transient_stake_lamports: 1111111,
                last_update_epoch: 987654321,
            },
            ValidatorStakeInfo {
                status: StakeStatus::DeactivatingTransient,
                vote_account_address: Pubkey::new_from_array([2; 32]),
                active_stake_lamports: 998877665544,
                transient_stake_lamports: 222222222,
                last_update_epoch: 11223445566,
            },
            ValidatorStakeInfo {
                status: StakeStatus::ReadyForRemoval,
                vote_account_address: Pubkey::new_from_array([3; 32]),
                active_stake_lamports: 0,
                transient_stake_lamports: 0,
                last_update_epoch: 999999999999999,
            },
        ],
    }
}

/// Serializes a list into a buffer of `size` bytes, as an account holds it:
/// the content at the front, zero padding behind.
fn serialize_into(list: &ValidatorList, size: usize) -> Vec<u8> {
    let content = list.serialize();
    assert!(content.len() <= size);
    let mut buffer = vec![0u8; size];
    buffer[..content.len()].copy_from_slice(&content);
    buffer
}

#[test]
fn state_packing() {
    let max_validators = 10_000;
    let size = ValidatorList::new(max_validators).serialize().len();
    let stake_list = uninitialized_validator_list();
    let byte_vec = serialize_into(&stake_list, size);
    let stake_list_unpacked = deserialize_validator_list(&byte_vec).unwrap();
    assert_eq!(stake_list_unpacked, stake_list);

    // Empty, initialized list
    let stake_list = ValidatorList {
        header: ValidatorListHeader {
            account_type: AccountType::ValidatorList,
            max_validators: 0,
        },
        validators: vec![],
    };
    let byte_vec = serialize_into(&stake_list, size);
    let stake_list_unpacked = deserialize_validator_list(&byte_vec).unwrap();
    assert_eq!(stake_list_unpacked, stake_list);

    // With several accounts
    let stake_list = test_validator_list(max_validators);
    let byte_vec = serialize_into(&stake_list, size);
    let stake_list_unpacked = deserialize_validator_list(&byte_vec).unwrap();
    assert_eq!(stake_list_unpacked, stake_list);
}

#[test]
fn validator_list_active_stake() {
    let max_validators = 10_000;
    let mut validator_list = test_validator_list(max_validators);
    assert!(validator_list.has_active_stake());
    for validator in validator_list.validators.iter_mut() {
        validator.active_stake_lamports = 0;
    }
    assert!(!validator_list.has_active_stake());
}

#[test]
fn validator_list_deserialize_mut_slice() {
    let max_validators = 10;
    let stake_list = test_validator_list(max_validators);
    let serialized = stake_list.serialize();
    let header = read_header(&serialized).unwrap();
    let list = read_entries(&serialized, 0, stake_list.validators.len()).unwrap();
    assert_eq!(header.account_type, AccountType::ValidatorList);
    assert_eq!(header.max_validators, max_validators);
    assert!(list
        .iter()
        .zip(stake_list.validators.iter())
        .all(|(a, b)| a == b));

    let list = read_entries(&serialized, 1, 2).unwrap();
    assert!(list
        .iter()
        .zip(stake_list.validators[1..].iter())
        .all(|(a, b)| a == b));
    let list = read_entries(&serialized, 2, 1).unwrap();
    assert!(list
        .iter()
        .zip(stake_list.validators[2..].iter())
        .all(|(a, b)| a == b));
    let list = read_entries(&serialized, 0, 2).unwrap();
    assert!(list
        .iter()
        .zip(stake_list.validators[..2].iter())
        .all(|(a, b)| a == b));

    assert_eq!(
        read_entries(&serialized, 0, 4).unwrap_err(),
        StakePoolError::AccountDataTooSmall
    );
    assert_eq!(
        read_entries(&serialized, 1, 3).unwrap_err(),
        StakePoolError::AccountDataTooSmall
    );
}

#[test]
fn validator_list_iter() {
    let max_validators = 10;
    let stake_list = test_validator_list(max_validators);
    let serialized = stake_list.serialize();
    let entries = read_entries(&serialized, 0, stake_list.validators.len()).unwrap();
    for (a, b) in entries.iter().zip(stake_list.validators.iter()) {
        assert_eq!(a, b);
    }
}

#[test]
fn stake_list_size_calculation() {
    for n in [0u32, 1, 2, 3, 57, 1_000] {
        let size = ValidatorList::new(n).serialize().len();
        assert_eq!(size, 9 + 57 * n as usize);
        assert_eq!(ValidatorList::calculate_max_validators(size), n as usize);
        assert_eq!(
            ValidatorList::calculate_max_validators(size.saturating_add(1)),
            n as usize
        );
        assert_eq!(
            ValidatorList::calculate_max_validators(size.saturating_add(57)),
            (n + 1) as usize
        );
        assert_eq!(
            ValidatorList::calculate_max_validators(size.saturating_sub(1)),
            n.saturating_sub(1) as usize
        );
    }
}

#[test]
fn find_and_contains() {
    let list = test_validator_list(10);
    let key = Pubkey::new_from_array([2; 32]);
    assert!(list.contains(&key));
    let found = list.find(&key).unwrap();
    assert_eq!(found.active_stake_lamports, 998877665544);
    assert_eq!(list.find_index(&key), Some(1));
    let absent = Pubkey::new_from_array([9; 32]);
    assert!(!list.contains(&absent));
    assert!(list.find(&absent).is_none());
}

#[test]
fn push_respects_capacity() {
    let mut list = ValidatorList {
        header: ValidatorListHeader {
            account_type: AccountType::ValidatorList,
            max_validators: 1,
        },
        validators: vec![],
    };
    let first = ValidatorStakeInfo::zeroed_for(Pubkey::new_from_array([7; 32]));
    assert_eq!(list.push(first), Ok(()));
    let second = ValidatorStakeInfo::zeroed_for(Pubkey::new_from_array([8; 32]));
    assert_eq!(list.push(second), Err(StakePoolError::MaxValidatorsReached));
    assert_eq!(list.validators.len(), 1);
}

#[test]
fn remove_requires_empty_stake() {
    let mut list = test_validator_list(10);
    // Still has active and transient stake.
    assert_eq!(
        list.remove(&Pubkey::new_from_array([1; 32])),
        Err(StakePoolError::ValidatorStakeStillActive)
    );
    assert_eq!(list.validators.len(), 3);
    // Unknown key.
    assert_eq!(
        list.remove(&Pubkey::new_from_array([9; 32])),
        Err(StakePoolError::ValidatorNotFound)
    );
    // Fully decommissioned: removed, exactly one entry.
    assert_eq!(list.remove(&Pubkey::new_from_array([3; 32])), Ok(()));
    assert_eq!(list.validators.len(), 2);
    assert!(!list.contains(&Pubkey::new_from_array([3; 32])));
    assert!(list.contains(&Pubkey::new_from_array([1; 32])));
    assert!(list.contains(&Pubkey::new_from_array([2; 32])));
}

#[test]
fn packed_entry_round_trip() {
    let entry = ValidatorStakeInfo {
        status: StakeStatus::DeactivatingTransient,
        vote_account_address: Pubkey::new_from_array([42; 32]),
        active_stake_lamports: u64::MAX,
        transient_stake_lamports: 1,
        last_update_epoch: 3,
    };
    let bytes = entry.pack();
    assert_eq!(bytes.len(), 57);
    let back = ValidatorStakeInfo::unpack(&bytes).unwrap();
    assert_eq!(back, entry);
    // Little-endian lamports at the front, status tag at byte 24.
    assert_eq!(&bytes[0..8], &[255u8; 8]);
    assert_eq!(bytes[8], 1);
    assert_eq!(bytes[24], 1);
    assert_eq!(&bytes[25..57], &[42u8; 32]);
}

#[test]
fn packed_entry_rejects_bad_input() {
    let entry = ValidatorStakeInfo::zeroed_for(Pubkey::new_from_array([5; 32]));
    let mut bytes = entry.pack();
    assert_eq!(
        ValidatorStakeInfo::unpack(&bytes[..56]),
        Err(StakePoolError::AccountDataTooSmall)
    );
    bytes[24] = 3;
    assert_eq!(
        ValidatorStakeInfo::unpack(&bytes),
        Err(StakePoolError::InvalidAccountData)
    );
}

#[test]
fn partial_write_touches_one_slot() {
    let list = test_validator_list(10);
    let mut data = list.serialize();
    let replacement = ValidatorStakeInfo {
        status: StakeStatus::Active,
        vote_account_address: Pubkey::new_from_array([9; 32]),
        active_stake_lamports: 777,
        transient_stake_lamports: 0,
        last_update_epoch: 12,
    };
    let before = data.clone();
    stake_pool::layout::write_entry_at(&mut data, 1, &replacement).unwrap();
    assert_eq!(&data[..9 + 57], &before[..9 + 57]);
    assert_eq!(&data[9 + 2 * 57..], &before[9 + 2 * 57..]);
    let entries = read_entries(&data, 0, 3).unwrap();
    assert_eq!(entries[0], list.validators[0]);
    assert_eq!(entries[1], replacement);
    assert_eq!(entries[2], list.validators[2]);
    // Out of range: nothing written.
    assert_eq!(
        stake_pool::layout::write_entry_at(&mut data, 3, &replacement),
        Err(StakePoolError::AccountDataTooSmall)
    );
    assert_eq!(
        read_entries(&data, 0, 3).unwrap(),
        vec![list.validators[0], replacement, list.validators[2]]
    );
}

#[test]
fn memcmp_helpers_match_layout() {
    let entry = test_validator_list(10).validators[0];
    let bytes = entry.pack();
    assert!(ValidatorStakeInfo::memcmp_pubkey(&bytes, &[1u8; 32]));
    assert!(!ValidatorStakeInfo::memcmp_pubkey(&bytes, &[2u8; 32]));
    let active_le = 123456789u64.to_le_bytes();
    let transient_le = 1111111u64.to_le_bytes();
    assert!(!ValidatorStakeInfo::memcmp_active_lamports(&bytes, &active_le));
    assert!(ValidatorStakeInfo::memcmp_active_lamports(&bytes, &transient_le));
    assert!(!ValidatorStakeInfo::memcmp_transient_lamports(&bytes, &transient_le));
    assert!(ValidatorStakeInfo::memcmp_transient_lamports(&bytes, &active_le));
    assert!(ValidatorStakeInfo::is_not_removed(&bytes));
    let removed = test_validator_list(10).validators[2].pack();
    assert!(!ValidatorStakeInfo::is_not_removed(&removed));
}

#[test]
fn header_is_checked_before_entries() {
    let list = test_validator_list(10);
    let mut data = list.serialize();
    let header = read_header(&data).unwrap();
    assert!(header.is_valid());
    assert!(!header.is_uninitialized());
    data[0] = 7;
    assert_eq!(
        deserialize_validator_list(&data),
        Err(StakePoolError::InvalidAccountData)
    );
    assert_eq!(read_header(&data[..4]), Err(StakePoolError::AccountDataTooSmall));
}

#[test]
fn new_list_is_sized_with_zeroed_entries() {
    let list = ValidatorList::new(3);
    assert!(list.header.is_valid());
    assert_eq!(list.header.max_validators, 3);
    assert_eq!(list.len(), 3);
    for entry in &list.validators {
        assert_eq!(entry.active_stake_lamports, 0);
        assert_eq!(entry.transient_stake_lamports, 0);
        assert_eq!(entry.status, StakeStatus::Active);
        assert_eq!(entry.vote_account_address, Pubkey::new_from_array([0; 32]));
    }
}

#[test]
fn find_index_returns_the_first_match() {
    let duplicate = ValidatorStakeInfo {
        active_stake_lamports: 1,
        transient_stake_lamports: 0,
        last_update_epoch: 0,
        status: StakeStatus::Active,
        vote_account_address: Pubkey::new_from_array([6; 32]),
    };
    let list = ValidatorList {
        header: ValidatorListHeader {
            account_type: AccountType::ValidatorList,
            max_validators: 4,
        },
        validators: vec![
            ValidatorStakeInfo {
                active_stake_lamports: 0,
                ..duplicate
            },
            duplicate,
            ValidatorStakeInfo {
                active_stake_lamports: 2,
                ..duplicate
            },
        ],
    };
    assert_eq!(list.find_index(&Pubkey::new_from_array([6; 32])), Some(0));
    assert_eq!(
        list.find(&Pubkey::new_from_array([6; 32]))
            .unwrap()
            .active_stake_lamports,
        0
    );
}

#[test]
fn stake_lamports_sums_both_accounts() {
    let entry = ValidatorStakeInfo {
        active_stake_lamports: 40,
        transient_stake_lamports: 2,
        last_update_epoch: 0,
        status: StakeStatus::Active,
        vote_account_address: Pubkey::new_from_array([1; 32]),
    };
    assert_eq!(entry.stake_lamports(), 42);
}

#[test]
fn initialization_marker_follows_the_tag() {
    let mut header = ValidatorListHeader::default();
    assert!(header.is_uninitialized());
    assert!(!header.is_initialized());
    header.account_type = AccountType::ValidatorList;
    assert!(header.is_initialized());
    let mut pool = stake_pool::state::StakePool::default();
    assert!(!pool.is_initialized());
    pool.account_type = AccountType::StakePool;
    assert!(pool.is_initialized());
}

#[test]
fn error_messages_name_the_failure() {
    assert_eq!(
        StakePoolError::CalculationFailure.message(),
        "calculation failure"
    );
    assert_eq!(
        StakePoolError::TransientAccountInUse.message(),
        "transient stake account in use"
    );
}
