use vstd::prelude::*;

use vstd::arithmetic::div_mod::lemma_div_is_ordered;
use vstd::arithmetic::div_mod::lemma_div_multiples_vanish;
use vstd::arithmetic::mul::lemma_mul_inequality;
use vstd::arithmetic::mul::lemma_mul_nonnegative;

use crate::errors::PresaleError;
use crate::state::RoundConfig;
use crate::state::LAMPORTS_PER_SOL;
use crate::state::TOKEN_UNIT;

verus! {

/// USD value (6 decimals) of `lamports` native units at `price` USD per
/// whole native coin: `lamports * price / 10^9`, floor division.
pub open spec fn spec_sol_to_usd(lamports: u64, price: u64) -> int {
    (lamports as int) * (price as int) / (LAMPORTS_PER_SOL as int)
}

/// Base token amount (9-decimal smallest units) bought by `usd` at the
/// round's price: `usd * 10^9 / price`, floor division.
pub open spec fn spec_base_tokens(usd: u64, config: RoundConfig) -> int {
    (usd as int) * (TOKEN_UNIT as int) / (config.price as int)
}

/// Bonus tokens: `base * bonus / 100`, floor division.
pub open spec fn spec_bonus_tokens(usd: u64, config: RoundConfig) -> int {
    spec_base_tokens(usd, config) * (config.bonus as int) / 100
}

/// Total token amount of a purchase: base plus bonus.
pub open spec fn spec_token_amount(usd: u64, config: RoundConfig) -> int {
    spec_base_tokens(usd, config) + spec_bonus_tokens(usd, config)
}

/// Converts a native-coin amount to 6-decimal USD through the recorded
/// price, in 128-bit intermediates; `Overflow` exactly when the result does
/// not fit the 64-bit USD state.
pub fn sol_to_usd(lamports: u64, price: u64) -> (r: Result<u64, PresaleError>)
    ensures
        spec_sol_to_usd(lamports, price) <= u64::MAX ==> r == Ok::<u64, PresaleError>(
            spec_sol_to_usd(lamports, price) as u64,
        ),
        spec_sol_to_usd(lamports, price) > u64::MAX ==> r == Err::<u64, PresaleError>(
            PresaleError::Overflow,
        ),
{
    proof {
        lemma_mul_nonnegative(lamports as int, price as int);
        lemma_mul_inequality(lamports as int, u64::MAX as int, price as int);
        lemma_mul_inequality(price as int, u64::MAX as int, u64::MAX as int);
        assert((lamports as int) * (price as int) == (price as int) * (lamports as int))
            by (nonlinear_arith);
        assert((u64::MAX as int) * (price as int) == (price as int) * (u64::MAX as int))
            by (nonlinear_arith);
        lemma_div_is_ordered(0, (lamports as int) * (price as int), LAMPORTS_PER_SOL as int);
    }
    let usd = (lamports as u128) * (price as u128) / (LAMPORTS_PER_SOL as u128);
    if usd > u64::MAX as u128 {
        return Err(PresaleError::Overflow);
    }
    Ok(usd as u64)
}

/// Token amount (base plus percentage bonus) bought by `usd_amount` under
/// `config`, in 128-bit intermediates; `Overflow` exactly when the total
/// does not fit the 64-bit token state.
pub fn calculate_token_amount(usd_amount: u64, config: &RoundConfig) -> (r: Result<
    u64,
    PresaleError,
>)
    requires
        config.price > 0,
        config.bonus <= 100,
    ensures
        spec_token_amount(usd_amount, *config) <= u64::MAX ==> r == Ok::<u64, PresaleError>(
            spec_token_amount(usd_amount, *config) as u64,
        ),
        spec_token_amount(usd_amount, *config) > u64::MAX ==> r == Err::<u64, PresaleError>(
            PresaleError::Overflow,
        ),
{
    proof {
        lemma_base_tokens_nonnegative(usd_amount, *config);
        lemma_bonus_le_base(usd_amount, *config);
    }
    let base_wide = (usd_amount as u128) * (TOKEN_UNIT as u128) / (config.price as u128);
    if base_wide > u64::MAX as u128 {
        return Err(PresaleError::Overflow);
    }
    let base_amount = base_wide as u64;
    proof {
        lemma_mul_nonnegative(base_amount as int, config.bonus as int);
        lemma_div_is_ordered(0, (base_amount as int) * (config.bonus as int), 100);
    }
    let bonus_amount = ((base_amount as u128) * (config.bonus as u128) / 100) as u64;
    match base_amount.checked_add(bonus_amount) {
        Some(total) => Ok(total),
        None => Err(PresaleError::Overflow),
    }
}

/// The base token amount is non-negative.
proof fn lemma_base_tokens_nonnegative(usd: u64, config: RoundConfig)
    requires
        config.price > 0,
    ensures
        0 <= spec_base_tokens(usd, config),
{
    lemma_mul_nonnegative(usd as int, TOKEN_UNIT as int);
    lemma_div_is_ordered(0, (usd as int) * (TOKEN_UNIT as int), config.price as int);
}

/// With a bonus percentage of at most 100, the bonus never exceeds the
/// base amount.
proof fn lemma_bonus_le_base(usd: u64, config: RoundConfig)
    requires
        config.price > 0,
        config.bonus <= 100,
    ensures
        0 <= spec_bonus_tokens(usd, config) <= spec_base_tokens(usd, config),
{
    lemma_base_tokens_nonnegative(usd, config);
    let b = spec_base_tokens(usd, config);
    let p = config.bonus as int;
    lemma_mul_nonnegative(b, p);
    lemma_div_is_ordered(0, b * p, 100);
    lemma_mul_inequality(p, 100, b);
    assert(p * b == b * p) by (nonlinear_arith);
    assert(100 * b == b * 100) by (nonlinear_arith);
    lemma_div_is_ordered(b * p, 100 * b, 100);
    lemma_div_multiples_vanish(b, 100);
}

} // verus!
