//! Tests that the withdraw-authority check really recomputes the program
//! derived address.

use stake_pool::address::Pubkey;
use stake_pool::error::StakePoolError;
use stake_pool::state::StakePool;

/// Finds a bump seed for which the withdraw authority derivation succeeds,
/// and returns the derived address with it.
fn find_withdraw_authority(program_id: &[u8; 32], pool_address: &[u8; 32]) -> ([u8; 32], u8) {
    let pid = solana_program::pubkey::Pubkey::new_from_array(*program_id);
    let mut bump = 255u8;
    loop {
        let seeds: [&[u8]; 3] = [&pool_address[..], b"withdraw", std::slice::from_ref(&bump)];
        if let Ok(address) = solana_program::pubkey::Pubkey::create_program_address(&seeds, &pid) {
            return (address.to_bytes(), bump);
        }
        bump = bump.checked_sub(1).expect("some bump seed must derive");
    }
}

#[test]
fn withdraw_authority_is_recomputed_from_seeds() {
    let program_id_bytes = [3u8; 32];
    let pool_address_bytes = [4u8; 32];
    let (derived, bump) = find_withdraw_authority(&program_id_bytes, &pool_address_bytes);

    let pool = StakePool {
        withdraw_bump_seed: bump,
        ..StakePool::default()
    };
    let program_id = Pubkey::new_from_array(program_id_bytes);
    let pool_address = Pubkey::new_from_array(pool_address_bytes);

    // The correctly derived address passes.
    assert_eq!(
        pool.check_authority_withdraw(
            &Pubkey::new_from_array(derived),
            &program_id,
            &pool_address
        ),
        Ok(())
    );
    // Any other address is rejected, even one byte off.
    let mut wrong = derived;
    wrong[0] = wrong[0].wrapping_add(1);
    assert_eq!(
        pool.check_authority_withdraw(&Pubkey::new_from_array(wrong), &program_id, &pool_address),
        Err(StakePoolError::InvalidProgramAddress)
    );
    // The seeds themselves are not the derived address.
    assert_ne!(derived, pool_address_bytes);
    // A different pool derives a different authority.
    let other_pool_bytes = [5u8; 32];
    let (other_derived, other_bump) = find_withdraw_authority(&program_id_bytes, &other_pool_bytes);
    let other_pool = StakePool {
        withdraw_bump_seed: other_bump,
        ..StakePool::default()
    };
    assert_eq!(
        other_pool.check_authority_withdraw(
            &Pubkey::new_from_array(other_derived),
            &program_id,
            &Pubkey::new_from_array(other_pool_bytes)
        ),
        Ok(())
    );
    assert_ne!(other_derived, derived);
    // A wrong bump seed fails the check outright.
    let wrong_bump_pool = StakePool {
        withdraw_bump_seed: bump.wrapping_add(1),
        ..StakePool::default()
    };
    assert_ne!(
        wrong_bump_pool.check_authority_withdraw(
            &Pubkey::new_from_array(derived),
            &program_id,
            &pool_address
        ),
        Ok(())
    );
}
