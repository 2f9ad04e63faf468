//! A swap between the treasuries through the vault's pool.
//!
//! The vault derives its own least output from the oracle, so whoever operates
//! it cannot sell below the reference price by more than the greatest slippage.
//! A cooldown and a limit on the volume per window bound what repeated swaps
//! near that floor can cost. In order: `begin`; swap; `finish`.

use crate::accounts::{Balances, TokenAccount};
use crate::constants::{MAX_SWAP_VOLUME_BPS, SWAP_COOLDOWN_SECS, SWAP_WINDOW_SECS};
use crate::errors::{outcome, VaultError};
use crate::events::SwapEvent;
use crate::math::{clamp_u64, lemma_div_bounds};
use crate::oracle::{oracle_window_fits, reference_price, reference_sqrt_price, window_fits};
use crate::price::{
    expected_output, law_value_is_expected_output, min_out_floor, price_x64, swap_min_out_floor,
    token1_value, value_in_token1,
};
use crate::pubkey::Pubkey;
use crate::state::Vault;
use vstd::prelude::*;

verus! {

/// Which token is sold.
#[derive(Clone, Copy, Debug, PartialEq, Eq, Structural)]
pub enum SwapDirection {
    /// Token0 for token1.
    Token0ToToken1,
    /// Token1 for token0.
    Token1ToToken0,
}

/// Accounts of a swap, and what the pool says of its own.
#[derive(Clone, Copy, Debug)]
pub struct SwapInTreasury {
    /// Who asks for the swap.
    pub admin: Pubkey,
    /// The vault's token0.
    pub token0_treasury: TokenAccount,
    /// The vault's token1.
    pub token1_treasury: TokenAccount,
    /// The pool's configuration.
    pub amm_config: Pubkey,
    /// The pool.
    pub pool_state: Pubkey,
    /// The pool's account that receives.
    pub input_vault: TokenAccount,
    /// The pool's account that pays.
    pub output_vault: TokenAccount,
    /// The oracle.
    pub observation_state: Pubkey,
    /// The configuration that the pool names.
    pub pool_amm_config: Pubkey,
    /// The oracle that the pool names.
    pub pool_observation_key: Pubkey,
    /// The pool's first token account.
    pub pool_token_vault_0: Pubkey,
    /// The pool's second token account.
    pub pool_token_vault_1: Pubkey,
    /// The pool's first mint.
    pub pool_token_mint_0: Pubkey,
}

/// The rate limit after a swap.
#[derive(Clone, Copy, Debug, PartialEq, Eq, Structural)]
pub struct SwapPlan {
    /// When the window started.
    pub window_start: i64,
    /// The window's volume, this swap's among it.
    pub window_volume: u64,
}

/// The token sold is the pool's first.
pub open spec fn sells_pool_token0(vault: Vault, accounts: SwapInTreasury, direction: SwapDirection) -> bool {
    match direction {
        SwapDirection::Token0ToToken1 => vault.token0_mint == accounts.pool_token_mint_0,
        SwapDirection::Token1ToToken0 => vault.token0_mint != accounts.pool_token_mint_0,
    }
}

/// The treasury's worth in token1 units of the pool at the reference price. What
/// the pool's first token is worth counts as zero where it does not fit.
pub open spec fn treasury_value(vault: Vault, accounts: SwapInTreasury, ref_sqrt: int) -> int {
    let (pool_token0, pool_token1) = if vault.token0_mint == accounts.pool_token_mint_0 {
        (vault.treasury_token0, vault.treasury_token1)
    } else {
        (vault.treasury_token1, vault.treasury_token0)
    };
    let value0 = match token1_value(ref_sqrt, pool_token0 as int, true) {
        Some(v) => v as int,
        None => 0,
    };
    pool_token1 + value0
}

/// The greatest volume per window. The treasury's worth is below 2^65, so the
/// product always fits in 128 bits.
pub open spec fn volume_cap(vault: Vault, accounts: SwapInTreasury, ref_sqrt: int) -> int {
    treasury_value(vault, accounts, ref_sqrt) * MAX_SWAP_VOLUME_BPS / 10_000
}

/// The window has run out.
pub open spec fn window_elapsed(vault: Vault, now: int) -> bool {
    now - vault.swap_window_start >= SWAP_WINDOW_SECS
}

/// The window's volume with a swap worth `value`.
pub open spec fn volume_with(vault: Vault, now: int, value: int) -> int {
    value + if window_elapsed(vault, now) {
        0
    } else {
        vault.swap_volume_in_window as int
    }
}

/// Why the accounts are not those that the pool names, if they are not.
pub open spec fn binding_refusal(accounts: SwapInTreasury) -> Option<VaultError> {
    let input = accounts.input_vault.key;
    let output = accounts.output_vault.key;
    if accounts.pool_observation_key != accounts.observation_state {
        Some(VaultError::InvalidPriceFeed)
    } else if accounts.pool_amm_config != accounts.amm_config {
        Some(VaultError::InvalidPriceFeed)
    } else if !((input == accounts.pool_token_vault_0 && output == accounts.pool_token_vault_1) || (
    input == accounts.pool_token_vault_1 && output == accounts.pool_token_vault_0)) {
        Some(VaultError::InvalidMint)
    } else {
        None
    }
}

/// Why the reference price `ref_sqrt` or the rate limit forbids a swap, if they
/// do.
pub open spec fn limit_refusal(
    vault: Vault,
    accounts: SwapInTreasury,
    amount_in: int,
    minimum_amount_out: int,
    direction: SwapDirection,
    ref_sqrt: int,
    now: int,
) -> Option<VaultError> {
    let sells0 = sells_pool_token0(vault, accounts, direction);
    match min_out_floor(ref_sqrt, amount_in, sells0) {
        None => Some(VaultError::MathOverflow),
        Some(floor) => if minimum_amount_out < floor {
            Some(VaultError::SlippageExceeded)
        } else {
            match token1_value(ref_sqrt, amount_in, sells0) {
                None => Some(VaultError::MathOverflow),
                Some(value) => if now - vault.last_swap_at < SWAP_COOLDOWN_SECS {
                    Some(VaultError::SwapCooldownActive)
                } else if volume_with(vault, now, value as int) > volume_cap(
                    vault,
                    accounts,
                    ref_sqrt,
                ) {
                    Some(VaultError::SwapVolumeExceeded)
                } else {
                    None
                },
            }
        },
    }
}

/// Why the token accounts do not fit the direction, if they do not.
pub open spec fn direction_refusal(
    vault: Vault,
    accounts: SwapInTreasury,
    amount_in: int,
    direction: SwapDirection,
) -> Option<VaultError> {
    let (treasury, sold, bought) = match direction {
        SwapDirection::Token0ToToken1 => (
            accounts.token0_treasury,
            vault.token0_mint,
            vault.token1_mint,
        ),
        SwapDirection::Token1ToToken0 => (
            accounts.token1_treasury,
            vault.token1_mint,
            vault.token0_mint,
        ),
    };
    if treasury.amount < amount_in {
        Some(VaultError::InsufficientTreasuryBalance)
    } else if accounts.input_vault.mint != sold || accounts.output_vault.mint != bought {
        Some(VaultError::InvalidMint)
    } else {
        None
    }
}

/// Why a swap is refused before the oracle is read, if it is.
pub open spec fn request_refusal(
    vault: Vault,
    accounts: SwapInTreasury,
    amount_in: int,
    minimum_amount_out: int,
) -> Option<VaultError> {
    if !vault.operates(accounts.admin) {
        Some(VaultError::Unauthorized)
    } else if accounts.pool_state != vault.pool_id {
        Some(VaultError::InvalidPriceFeed)
    } else if amount_in == 0 || minimum_amount_out == 0 {
        Some(VaultError::InvalidAmount)
    } else {
        binding_refusal(accounts)
    }
}

/// Why a swap is refused, if it is.
pub open spec fn refusal(
    vault: Vault,
    accounts: SwapInTreasury,
    amount_in: int,
    minimum_amount_out: int,
    direction: SwapDirection,
    obs_data: Seq<u8>,
    now: int,
) -> Option<VaultError> {
    let request = request_refusal(vault, accounts, amount_in, minimum_amount_out);
    if request is Some {
        request
    } else {
        match reference_price(obs_data) {
            None => Some(VaultError::OracleUnavailable),
            Some(ref_sqrt) => {
                let limit = limit_refusal(
                    vault,
                    accounts,
                    amount_in,
                    minimum_amount_out,
                    direction,
                    ref_sqrt as int,
                    now,
                );
                if limit is Some {
                    limit
                } else {
                    direction_refusal(vault, accounts, amount_in, direction)
                }
            },
        }
    }
}

/// The rate limit after a swap worth `value`.
pub open spec fn plan_for(vault: Vault, now: i64, value: int) -> SwapPlan {
    SwapPlan {
        window_start: if window_elapsed(vault, now as int) {
            now
        } else {
            vault.swap_window_start
        },
        window_volume: clamp_u64(volume_with(vault, now as int, value)),
    }
}

/// Checks a swap at the reference price `ref_sqrt` against its least output, the
/// cooldown and the volume limit.
pub fn check_limits(
    vault: &Vault,
    accounts: &SwapInTreasury,
    amount_in: u64,
    minimum_amount_out: u64,
    direction: SwapDirection,
    ref_sqrt: u128,
    now: i64,
) -> (r: Result<SwapPlan, VaultError>)
    ensures
        ({
            let sells0 = sells_pool_token0(*vault, *accounts, direction);
            r == (match limit_refusal(
                *vault,
                *accounts,
                amount_in as int,
                minimum_amount_out as int,
                direction,
                ref_sqrt as int,
                now as int,
            ) {
                Some(e) => Err::<SwapPlan, VaultError>(e),
                None => Ok::<SwapPlan, VaultError>(
                    plan_for(
                        *vault,
                        now,
                        token1_value(ref_sqrt as int, amount_in as int, sells0)->0 as int,
                    ),
                ),
            })
        }),
{
    let vault0_is_pool0: bool = vault.token0_mint == accounts.pool_token_mint_0;
    let sells0: bool = match direction {
        SwapDirection::Token0ToToken1 => vault0_is_pool0,
        SwapDirection::Token1ToToken0 => !vault0_is_pool0,
    };
    let floor: u64 = match swap_min_out_floor(ref_sqrt, amount_in, sells0) {
        Some(v) => v,
        None => return Err(VaultError::MathOverflow),
    };
    if minimum_amount_out < floor {
        return Err(VaultError::SlippageExceeded);
    }
    let value: u128 = match value_in_token1(ref_sqrt, amount_in, sells0) {
        Some(v) => v,
        None => return Err(VaultError::MathOverflow),
    };
    let (pool_token0, pool_token1): (u64, u64) = if vault0_is_pool0 {
        (vault.treasury_token0, vault.treasury_token1)
    } else {
        (vault.treasury_token1, vault.treasury_token0)
    };
    let value0: u128 = match value_in_token1(ref_sqrt, pool_token0, true) {
        Some(v) => v,
        None => 0,
    };
    let cap: u128 = (pool_token1 as u128 + value0) * MAX_SWAP_VOLUME_BPS / 10_000;
    if (now as i128) - (vault.last_swap_at as i128) < SWAP_COOLDOWN_SECS as i128 {
        return Err(VaultError::SwapCooldownActive);
    }
    let elapsed: bool = (now as i128) - (vault.swap_window_start as i128)
        >= SWAP_WINDOW_SECS as i128;
    let (window_start, before): (i64, u128) = if elapsed {
        (now, 0)
    } else {
        (vault.swap_window_start, vault.swap_volume_in_window as u128)
    };
    let volume: u128 = before + value;
    if volume > cap {
        return Err(VaultError::SwapVolumeExceeded);
    }
    let window_volume: u64 = if volume > u64::MAX as u128 {
        u64::MAX
    } else {
        volume as u64
    };
    Ok(SwapPlan { window_start, window_volume })
}

/// Checks everything about a swap that comes before the oracle is read.
pub fn check_request(
    vault: &Vault,
    accounts: &SwapInTreasury,
    amount_in: u64,
    minimum_amount_out: u64,
) -> (r: Result<(), VaultError>)
    ensures
        r == outcome(
            request_refusal(*vault, *accounts, amount_in as int, minimum_amount_out as int),
        ),
{
    if !vault.is_operator(&accounts.admin) {
        return Err(VaultError::Unauthorized);
    }
    if accounts.pool_state != vault.pool_id {
        return Err(VaultError::InvalidPriceFeed);
    }
    if amount_in == 0 || minimum_amount_out == 0 {
        return Err(VaultError::InvalidAmount);
    }
    if accounts.pool_observation_key != accounts.observation_state {
        return Err(VaultError::InvalidPriceFeed);
    }
    if accounts.pool_amm_config != accounts.amm_config {
        return Err(VaultError::InvalidPriceFeed);
    }
    let input: &TokenAccount = &accounts.input_vault;
    let output: &TokenAccount = &accounts.output_vault;
    if !((input.key == accounts.pool_token_vault_0 && output.key == accounts.pool_token_vault_1) || (
    input.key == accounts.pool_token_vault_1 && output.key == accounts.pool_token_vault_0)) {
        return Err(VaultError::InvalidMint);
    }
    Ok(())
}

/// The oracle's window fits, or the swap is refused before it is read.
pub open spec fn begin_fits(
    vault: Vault,
    accounts: SwapInTreasury,
    amount_in: int,
    minimum_amount_out: int,
    obs_data: Seq<u8>,
) -> bool {
    request_refusal(vault, accounts, amount_in, minimum_amount_out) is None ==> window_fits(
        obs_data,
    )
}

/// Tells whether `begin` may be called.
pub fn can_begin(
    vault: &Vault,
    accounts: &SwapInTreasury,
    amount_in: u64,
    minimum_amount_out: u64,
    obs_data: &[u8],
) -> (r: bool)
    ensures
        r == begin_fits(
            *vault,
            *accounts,
            amount_in as int,
            minimum_amount_out as int,
            obs_data@,
        ),
{
    match check_request(vault, accounts, amount_in, minimum_amount_out) {
        Err(_) => true,
        Ok(()) => oracle_window_fits(obs_data),
    }
}

/// Checks that a swap may go ahead, and works out the rate limit after it. On
/// success `amount_in` is to be swapped for at least `minimum_amount_out`.
pub fn begin(
    vault: &Vault,
    accounts: &SwapInTreasury,
    amount_in: u64,
    minimum_amount_out: u64,
    direction: SwapDirection,
    obs_data: &[u8],
    now: i64,
) -> (r: Result<SwapPlan, VaultError>)
    requires
        begin_fits(
            *vault,
            *accounts,
            amount_in as int,
            minimum_amount_out as int,
            obs_data@,
        ),
    ensures
        r == (match refusal(
            *vault,
            *accounts,
            amount_in as int,
            minimum_amount_out as int,
            direction,
            obs_data@,
            now as int,
        ) {
            Some(e) => Err::<SwapPlan, VaultError>(e),
            None => Ok::<SwapPlan, VaultError>(
                plan_for(
                    *vault,
                    now,
                    token1_value(
                        reference_price(obs_data@)->0 as int,
                        amount_in as int,
                        sells_pool_token0(*vault, *accounts, direction),
                    )->0 as int,
                ),
            ),
        }),
{
    match check_request(vault, accounts, amount_in, minimum_amount_out) {
        Err(e) => return Err(e),
        Ok(()) => {},
    }
    let ref_sqrt: u128 = match reference_sqrt_price(obs_data) {
        Some(v) => v,
        None => return Err(VaultError::OracleUnavailable),
    };
    let plan: SwapPlan = match check_limits(
        vault,
        accounts,
        amount_in,
        minimum_amount_out,
        direction,
        ref_sqrt,
        now,
    ) {
        Ok(v) => v,
        Err(e) => return Err(e),
    };
    let (treasury, sold, bought): (&TokenAccount, &Pubkey, &Pubkey) = match direction {
        SwapDirection::Token0ToToken1 => (
            &accounts.token0_treasury,
            &vault.token0_mint,
            &vault.token1_mint,
        ),
        SwapDirection::Token1ToToken0 => (
            &accounts.token1_treasury,
            &vault.token1_mint,
            &vault.token0_mint,
        ),
    };
    if treasury.amount < amount_in {
        return Err(VaultError::InsufficientTreasuryBalance);
    }
    if accounts.input_vault.mint != *sold || accounts.output_vault.mint != *bought {
        return Err(VaultError::InvalidMint);
    }
    Ok(plan)
}

/// How an event names a direction.
pub open spec fn direction_name(direction: SwapDirection) -> Seq<char> {
    match direction {
        SwapDirection::Token0ToToken1 => "TOKEN0->TOKEN1"@,
        SwapDirection::Token1ToToken0 => "TOKEN1->TOKEN0"@,
    }
}

/// The vault after a swap that leaves `treasury` in the treasuries.
pub open spec fn vault_after(vault: Vault, plan: SwapPlan, treasury: Balances, now: i64) -> Vault {
    Vault {
        treasury_token0: treasury.token0,
        treasury_token1: treasury.token1,
        swap_window_start: plan.window_start,
        swap_volume_in_window: plan.window_volume,
        last_swap_at: now,
        ..vault
    }
}

/// Records a swap. `treasury` is what the treasuries hold after it.
pub fn finish(
    vault: &mut Vault,
    plan: &SwapPlan,
    amount_in: u64,
    direction: SwapDirection,
    treasury: Balances,
    now: i64,
) -> (r: SwapEvent)
    ensures
        *final(vault) == vault_after(*old(vault), *plan, treasury, now),
        r.amount_in == amount_in,
        r.direction@ == direction_name(direction),
        r.treasury_token0 == treasury.token0,
        r.treasury_token1 == treasury.token1,
{
    vault.treasury_token0 = treasury.token0;
    vault.treasury_token1 = treasury.token1;
    vault.swap_window_start = plan.window_start;
    vault.swap_volume_in_window = plan.window_volume;
    vault.last_swap_at = now;
    SwapEvent {
        amount_in,
        direction: match direction {
            SwapDirection::Token0ToToken1 => "TOKEN0->TOKEN1".to_string(),
            SwapDirection::Token1ToToken0 => "TOKEN1->TOKEN0".to_string(),
        },
        treasury_token0: treasury.token0,
        treasury_token1: treasury.token1,
    }
}

/// A swap within the cooldown of the one before is refused.
pub proof fn law_swaps_are_a_cooldown_apart(
    vault: Vault,
    plan: SwapPlan,
    treasury: Balances,
    first: i64,
    accounts: SwapInTreasury,
    amount_in: int,
    minimum_amount_out: int,
    direction: SwapDirection,
    obs_data: Seq<u8>,
    second: int,
)
    requires
        second < first + SWAP_COOLDOWN_SECS,
    ensures
        refusal(
            vault_after(vault, plan, treasury, first),
            accounts,
            amount_in,
            minimum_amount_out,
            direction,
            obs_data,
            second,
        ) is Some,
{
}

/// A swap that goes ahead asks for at least 99% of what the reference price
/// yields, rounded down, and brings the window's volume to no more than the
/// treasury's worth. It goes through the vault's pool, on request of the operator
/// or the admin.
pub proof fn law_a_swap_is_bounded(
    vault: Vault,
    accounts: SwapInTreasury,
    amount_in: int,
    minimum_amount_out: int,
    direction: SwapDirection,
    obs_data: Seq<u8>,
    now: i64,
)
    requires
        refusal(
            vault,
            accounts,
            amount_in,
            minimum_amount_out,
            direction,
            obs_data,
            now as int,
        ) is None,
    ensures
        vault.operates(accounts.admin),
        accounts.pool_state == vault.pool_id,
        reference_price(obs_data) matches Some(ref_sqrt) && {
            let sells0 = sells_pool_token0(vault, accounts, direction);
            let value = token1_value(ref_sqrt as int, amount_in, sells0)->0 as int;
            &&& expected_output(ref_sqrt as int, amount_in, sells0) matches Some(
                expected,
            )
            &&& minimum_amount_out >= expected * 99 / 100
            &&& plan_for(vault, now, value).window_volume <= treasury_value(
                vault,
                accounts,
                ref_sqrt as int,
            )
        },
{
    let ref_sqrt = reference_price(obs_data)->0 as int;
    let sells0 = sells_pool_token0(vault, accounts, direction);
    let expected = expected_output(ref_sqrt, amount_in, sells0)->0;
    assert(expected * 9_900 / 10_000 == expected * 99 / 100);
}

/// A swap that sells the pool's first token gives up at most one percent of what
/// is sold, at the reference price, and a unit of rounding. With the law for the
/// other direction, the volume limit also bounds what the swaps of a window can
/// cost.
pub proof fn law_selling_costs_one_percent_at_most(
    vault: Vault,
    accounts: SwapInTreasury,
    amount_in: u64,
    minimum_amount_out: int,
    direction: SwapDirection,
    obs_data: Seq<u8>,
    now: int,
)
    requires
        refusal(
            vault,
            accounts,
            amount_in as int,
            minimum_amount_out,
            direction,
            obs_data,
            now,
        ) is None,
        sells_pool_token0(vault, accounts, direction),
    ensures
        ({
            let ref_sqrt = reference_price(obs_data)->0 as int;
            let value = token1_value(ref_sqrt, amount_in as int, true)->0;
            100 * (value - minimum_amount_out) < value + 100
        }),
{
    let ref_sqrt = reference_price(obs_data)->0 as int;
    law_value_is_expected_output(ref_sqrt, amount_in);
}

/// A swap that sells the pool's second token gives up at most one percent of what
/// is sold, at the reference price, and two units of the first token of rounding.
/// With `p` the price in Q64.64, `amount_in * 2^64` is what is sold and
/// `minimum_amount_out * p` what is asked for.
pub proof fn law_selling_token1_costs_one_percent_at_most(
    vault: Vault,
    accounts: SwapInTreasury,
    amount_in: u64,
    minimum_amount_out: int,
    direction: SwapDirection,
    obs_data: Seq<u8>,
    now: int,
)
    requires
        refusal(
            vault,
            accounts,
            amount_in as int,
            minimum_amount_out,
            direction,
            obs_data,
            now,
        ) is None,
        !sells_pool_token0(vault, accounts, direction),
    ensures
        ({
            let p = price_x64(reference_price(obs_data)->0 as int);
            let given = amount_in * 0x1_0000_0000_0000_0000;
            100 * (given - minimum_amount_out * p) < given + 199 * p
        }),
{
    let p = price_x64(reference_price(obs_data)->0 as int);
    let given = amount_in * 0x1_0000_0000_0000_0000;
    let half = reference_price(obs_data)->0 as int / 0x1_0000_0000;
    assert(half * half >= 0) by (nonlinear_arith);
    let expected = given / p;
    lemma_div_bounds(given, p);
    assert(100 * minimum_amount_out >= 99 * expected - 99);
    assert(100 * (given - minimum_amount_out * p) < given + 199 * p) by (nonlinear_arith)
        requires
            100 * minimum_amount_out >= 99 * expected - 99,
            given < expected * p + p,
            p > 0,
    ;
}

/// While a window lasts its volume only grows, by the worth of each swap, up to
/// what 64 bits hold.
pub proof fn law_volume_accumulates(
    vault: Vault,
    now: i64,
    value: int,
    treasury: Balances,
    later: i64,
    value2: int,
)
    requires
        value >= 0,
        value2 >= 0,
        !window_elapsed(vault, now as int),
        !window_elapsed(vault, later as int),
    ensures
        ({
            let once = vault_after(vault, plan_for(vault, now, value), treasury, now);
            let twice = plan_for(once, later, value2);
            &&& twice.window_start == vault.swap_window_start
            &&& twice.window_volume == clamp_u64(vault.swap_volume_in_window + value + value2)
        }),
{
}

} // verus!
