//! Proofs of the pool-wide laws that relate several operations.

use vstd::prelude::*;

use crate::state::StakePool;
use crate::validator_list::{spec_calculate_max_validators, spec_packed_len};

verus! {

/// Sizing the backing storage for `n` validators and reading the capacity
/// back yields exactly `n`, and stays `n` when the buffer gains a byte;
/// losing a byte drops the capacity by one, and gaining a whole entry's bytes
/// raises it by one.
pub proof fn lemma_max_validators_round_trip(n: u32)
    ensures
        spec_calculate_max_validators(spec_packed_len(n as int)) == n,
        spec_calculate_max_validators(spec_packed_len(n as int) + 1) == n,
        n > 0 ==> spec_calculate_max_validators(spec_packed_len(n as int) - 1) == n - 1,
        spec_calculate_max_validators(spec_packed_len(n as int) + 57) == n + 1,
{
    let len = spec_packed_len(n as int);
    vstd::arithmetic::div_mod::lemma_fundamental_div_mod_converse(len - 9, 57, n as int, 0);
    vstd::arithmetic::div_mod::lemma_fundamental_div_mod_converse(len - 9 + 1, 57, n as int, 1);
    if n > 0 {
        vstd::arithmetic::div_mod::lemma_fundamental_div_mod_converse(
            len - 9 - 1,
            57,
            n as int - 1,
            56,
        );
    }
    vstd::arithmetic::div_mod::lemma_fundamental_div_mod_converse(
        len - 9 + 57,
        57,
        n as int + 1,
        0,
    );
}

/// The quotient `a / d` times `d` never exceeds `a`, for a non-negative
/// dividend and positive divisor.
proof fn lemma_floor_times_divisor_le(a: int, d: int)
    requires
        0 <= a,
        0 < d,
    ensures
        (a / d) * d <= a,
        0 <= a / d,
{
    vstd::arithmetic::div_mod::lemma_fundamental_div_mod(a, d);
    vstd::arithmetic::div_mod::lemma_mod_division_less_than_divisor(a, d);
    vstd::arithmetic::div_mod::lemma_div_pos_is_pos(a, d);
    vstd::arithmetic::mul::lemma_mul_is_commutative(d, a / d);
}

/// Depositing `stake_lamports` and immediately withdrawing every pool token
/// it minted pays back at most `stake_lamports`: rounding down on both
/// conversions can only lose value, never create it.
///
/// The pool must not be in the degenerate state of nonzero stake with zero
/// share supply; there, any deposit would buy the whole pool.
pub proof fn lemma_deposit_then_withdraw_never_gains(pool: StakePool, stake_lamports: u64)
    requires
        pool.pool_token_supply > 0 || pool.total_stake_lamports == 0,
        pool.spec_tokens_for_deposit(stake_lamports) is Some,
        pool.total_stake_lamports + stake_lamports <= u64::MAX,
        pool.pool_token_supply + pool.spec_tokens_for_deposit(stake_lamports).unwrap()
            <= u64::MAX,
    ensures
        ({
            let tokens = pool.spec_tokens_for_deposit(stake_lamports).unwrap();
            let post = StakePool {
                total_stake_lamports: (pool.total_stake_lamports + stake_lamports) as u64,
                pool_token_supply: (pool.pool_token_supply + tokens) as u64,
                ..pool
            };
            match post.spec_lamports_for_withdraw(tokens) {
                Some(lamports_back) => lamports_back <= stake_lamports,
                None => post.pool_token_supply == 0,
            }
        }),
{
    let t = pool.total_stake_lamports as int;
    let s = pool.pool_token_supply as int;
    let x = stake_lamports as int;
    let tokens = pool.spec_tokens_for_deposit(stake_lamports).unwrap() as int;
    let supply_after = s + tokens;
    let total_after = t + x;
    if supply_after > 0 {
        // In both the bootstrap case and the priced case, the minted tokens
        // satisfy tokens * t <= x * s, and in the bootstrap case tokens == x.
        assert(tokens * total_after <= x * supply_after) by {
            if t == 0 || s == 0 {
                // Bootstrap: tokens == x, so the claim is x*t + x*x <= x*s + x*tokens
                // with t == 0 (the degenerate s == 0 < t is excluded).
                assert(tokens == x);
                assert(t == 0);
                vstd::arithmetic::mul::lemma_mul_is_distributive_add(x, t, x);
                vstd::arithmetic::mul::lemma_mul_is_distributive_add(x, s, tokens);
                vstd::arithmetic::mul::lemma_mul_inequality(0, s, x);
                vstd::arithmetic::mul::lemma_mul_is_commutative(x, s);
            } else {
                assert(tokens == (x * s) / t);
                lemma_floor_times_divisor_le(x * s, t);
                assert(tokens * t <= x * s);
                // tokens * (t + x) == tokens * t + tokens * x
                vstd::arithmetic::mul::lemma_mul_is_distributive_add(tokens, t, x);
                // x * (s + tokens) == x * s + x * tokens
                vstd::arithmetic::mul::lemma_mul_is_distributive_add(x, s, tokens);
                vstd::arithmetic::mul::lemma_mul_is_commutative(tokens, x);
            }
        };
        vstd::arithmetic::div_mod::lemma_div_is_ordered(
            tokens * total_after,
            x * supply_after,
            supply_after,
        );
        vstd::arithmetic::div_mod::lemma_div_multiples_vanish(x, supply_after);
        vstd::arithmetic::mul::lemma_mul_is_commutative(x, supply_after);
        assert((x * supply_after) / supply_after == x);
        assert(tokens * total_after / supply_after <= x);
    }
}


/// `a / d` is at most `b` whenever `a <= b * d`, for positive `d`.
proof fn lemma_div_le_of_le_mul(a: int, b: int, d: int)
    requires
        0 <= a,
        0 <= b,
        0 < d,
        a <= b * d,
    ensures
        a / d <= b,
{
    vstd::arithmetic::div_mod::lemma_div_is_ordered(a, b * d, d);
    vstd::arithmetic::mul::lemma_mul_is_commutative(b, d);
    vstd::arithmetic::div_mod::lemma_div_multiples_vanish(b, d);
}

/// The minted fee, converted back to lamports at the post-fee rate, never
/// exceeds the fee's share of the reward, and falls short of it by at most
/// two lamports plus one per whole multiple of the prior stake that the
/// reward spans: flooring both conversions loses a bounded amount and never
/// favors the manager.
///
/// Stated for a pool whose share supply equals its stake, the steady state
/// in which every prior reward was priced one to one.
pub proof fn lemma_fee_precision_bounded(pool: StakePool, reward_lamports: u64)
    requires
        pool.pool_token_supply == pool.total_stake_lamports,
        1 <= pool.total_stake_lamports,
        1 <= reward_lamports,
        pool.total_stake_lamports + reward_lamports <= u64::MAX,
        1 <= pool.fee.denominator,
        pool.fee.numerator <= pool.fee.denominator,
    ensures
        pool.spec_fee_amount(reward_lamports) is Some,
        pool.pool_token_supply + pool.spec_fee_amount(reward_lamports).unwrap() <= u64::MAX,
        ({
            let fee_tokens = pool.spec_fee_amount(reward_lamports).unwrap();
            let post = StakePool {
                total_stake_lamports: (pool.total_stake_lamports + reward_lamports) as u64,
                pool_token_supply: (pool.pool_token_supply + fee_tokens) as u64,
                ..pool
            };
            let max_fee_lamports = reward_lamports as int * pool.fee.numerator as int / (pool.fee.denominator as int);
            match post.spec_lamports_for_withdraw(fee_tokens) {
                Some(lamports_back) => {
                    &&& lamports_back <= max_fee_lamports
                    &&& max_fee_lamports - lamports_back <= 2 + reward_lamports as int
                        / pool.total_stake_lamports as int
                },
                None => false,
            }
        }),
{
    let t = pool.total_stake_lamports as int;
    let r = reward_lamports as int;
    let num = pool.fee.numerator as int;
    let den = pool.fee.denominator as int;
    let fee_l = r * num / den;

    // The fee's share of the reward is at most the reward.
    vstd::arithmetic::mul::lemma_mul_inequality(num, den, r);
    vstd::arithmetic::mul::lemma_mul_is_commutative(num, r);
    vstd::arithmetic::mul::lemma_mul_is_commutative(den, r);
    vstd::arithmetic::div_mod::lemma_div_pos_is_pos(r * num, den);
    lemma_div_le_of_le_mul(r * num, r, den);
    assert(0 <= fee_l <= r);

    let backing = t + r - fee_l;
    assert(t <= backing);

    // The wide product in the fee conversion stays under 128 bits.
    crate::math::lemma_u64_mul_fits(pool.pool_token_supply, (fee_l) as u64);
    vstd::arithmetic::mul::lemma_mul_inequality(fee_l, u64::MAX as int, t);
    vstd::arithmetic::mul::lemma_mul_is_commutative(fee_l, t);
    vstd::arithmetic::mul::lemma_mul_is_commutative(u64::MAX as int, t);
    vstd::arithmetic::mul::lemma_mul_inequality(t, u64::MAX as int, u64::MAX as int);
    assert(t * fee_l <= u64::MAX * u64::MAX);
    assert(t * fee_l <= u128::MAX);

    // The minted tokens are at most the fee lamports.
    let tokens = t * fee_l / backing;
    vstd::arithmetic::mul::lemma_mul_nonnegative(t, fee_l);
    vstd::arithmetic::div_mod::lemma_div_is_ordered_by_denominator(t * fee_l, t, backing);
    vstd::arithmetic::mul::lemma_mul_is_commutative(t, fee_l);
    vstd::arithmetic::div_mod::lemma_div_multiples_vanish(fee_l, t);
    vstd::arithmetic::div_mod::lemma_div_pos_is_pos(t * fee_l, backing);
    assert(0 <= tokens <= fee_l);
    assert(pool.spec_fee_amount(reward_lamports) == Some(tokens as u64));

    // Floor bounds for the two divisions.
    vstd::arithmetic::div_mod::lemma_fundamental_div_mod(t * fee_l, backing);
    vstd::arithmetic::div_mod::lemma_mod_division_less_than_divisor(t * fee_l, backing);
    vstd::arithmetic::mul::lemma_mul_is_commutative(backing, tokens);
    assert(tokens * backing <= t * fee_l);
    assert(tokens * backing > t * fee_l - backing);

    let m = t + tokens;
    assert(1 <= m);
    let back = tokens * (t + r) / m;
    vstd::arithmetic::mul::lemma_mul_nonnegative(tokens, t + r);
    vstd::arithmetic::div_mod::lemma_fundamental_div_mod(tokens * (t + r), m);
    vstd::arithmetic::div_mod::lemma_mod_division_less_than_divisor(tokens * (t + r), m);
    vstd::arithmetic::mul::lemma_mul_is_commutative(m, back);
    assert(back * m <= tokens * (t + r));
    assert(back * m > tokens * (t + r) - m);

    // tokens * (t + r) splits over the backing and the fee.
    vstd::arithmetic::mul::lemma_mul_is_distributive_add(tokens, backing, fee_l);
    assert(tokens * (t + r) == tokens * backing + tokens * fee_l);
    // fee_l * m splits over the stake and the tokens.
    vstd::arithmetic::mul::lemma_mul_is_distributive_add(fee_l, t, tokens);
    vstd::arithmetic::mul::lemma_mul_is_commutative(fee_l, t);
    vstd::arithmetic::mul::lemma_mul_is_commutative(fee_l, tokens);
    vstd::arithmetic::mul::lemma_mul_is_commutative(tokens, fee_l);
    assert(fee_l * m == t * fee_l + tokens * fee_l);

    // Never above the fee's share: back * m <= fee_l * m.
    assert(back * m <= fee_l * m);
    vstd::arithmetic::div_mod::lemma_div_is_ordered(back * m, fee_l * m, m);
    vstd::arithmetic::div_mod::lemma_div_multiples_vanish(back, m);
    vstd::arithmetic::div_mod::lemma_div_multiples_vanish(fee_l, m);
    vstd::arithmetic::mul::lemma_mul_is_commutative(back, m);
    vstd::arithmetic::mul::lemma_mul_is_commutative(fee_l, m);
    assert(back <= fee_l);

    // Bounded precision loss: suppose the shortfall exceeded the bound.
    let e = r / t;
    vstd::arithmetic::div_mod::lemma_div_pos_is_pos(r, t);
    if fee_l - back > 2 + e {
        let shortfall = fee_l - back;
        assert(shortfall >= 3 + e);
        // shortfall * m is small: from the two floor lower bounds.
        assert(back * m >= tokens * (t + r) - m + 1);
        assert(tokens * (t + r) >= t * fee_l - backing + 1 + tokens * fee_l);
        assert(back * m >= fee_l * m - backing - m + 2);
        vstd::arithmetic::mul::lemma_mul_is_distributive_sub_other_way(m, fee_l, back);
        assert(shortfall * m == fee_l * m - back * m);
        assert(shortfall * m <= backing + m - 2);
        // but shortfall * m is large: at least (3 + e) * t.
        vstd::arithmetic::mul::lemma_mul_inequality(3 + e, shortfall, m);
        vstd::arithmetic::mul::lemma_mul_inequality(t, m, 3 + e);
        vstd::arithmetic::mul::lemma_mul_is_commutative(t, 3 + e);
        vstd::arithmetic::mul::lemma_mul_is_commutative(m, 3 + e);
        vstd::arithmetic::mul::lemma_mul_is_commutative(shortfall, m);
        assert((3 + e) * t <= shortfall * m);
        vstd::arithmetic::mul::lemma_mul_is_distributive_add_other_way(t, 3, e);
        vstd::arithmetic::div_mod::lemma_fundamental_div_mod(r, t);
        vstd::arithmetic::div_mod::lemma_mod_division_less_than_divisor(r, t);
        vstd::arithmetic::mul::lemma_mul_is_commutative(e, t);
        assert(e * t > r - t);
        assert((3 + e) * t > 3 * t + r - t);
        // backing + m - 2 < 2t + r, since tokens <= fee_l.
        assert(backing + m - 2 <= 2 * t + r - 2);
        assert(false);
    }
    assert(fee_l - back <= 2 + e);

    // The conversion back stays in range, so the withdrawal yields a value.
    let post = StakePool {
        total_stake_lamports: (t + r) as u64,
        pool_token_supply: (t + tokens) as u64,
        ..pool
    };
    assert(post.spec_lamports_for_withdraw((tokens as u64)) == Some(back as u64)) by {
        assert(crate::math::spec_mul_div(tokens, t + r, m) == back);
        assert(0 <= back <= fee_l <= r <= u64::MAX);
    }
}

} // verus!
