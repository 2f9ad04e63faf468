//! What a swap between the treasuries does.

use crate::accounts::Balances;
use crate::errors::VaultError;
use crate::events::SwapEvent;
use crate::instructions::swap_in_treasury::{
    begin, check_limits, finish, SwapDirection, SwapInTreasury, SwapPlan,
};
use crate::laws::lesser;
use crate::oracle::reference_sqrt_price;
use crate::price::{swap_min_out_floor, value_in_token1};
use crate::state::Vault;
use vstd::prelude::*;

verus! {

/// A swap that goes ahead sells no more than the treasury of the token sold
/// holds, whatever the other treasury holds. The pool's receiving account is of
/// the token sold, and its paying account is of the token bought. Only a treasury
/// that falls short of the amount sold is answered as one that does.
pub proof fn law_a_swap_sells_what_the_treasury_has(
    vault: Vault,
    accounts: SwapInTreasury,
    amount_in: u64,
    minimum_amount_out: u64,
    direction: SwapDirection,
    obs_data: &[u8],
    now: i64,
    r: Result<SwapPlan, VaultError>,
)
    requires
        call_ensures(
            begin,
            (&vault, &accounts, amount_in, minimum_amount_out, direction, obs_data, now),
            r,
        ),
    ensures
        r is Ok ==> match direction {
            SwapDirection::Token0ToToken1 => {
                &&& amount_in <= accounts.token0_treasury.amount
                &&& accounts.input_vault.mint == vault.token0_mint
                &&& accounts.output_vault.mint == vault.token1_mint
            },
            SwapDirection::Token1ToToken0 => {
                &&& amount_in <= accounts.token1_treasury.amount
                &&& accounts.input_vault.mint == vault.token1_mint
                &&& accounts.output_vault.mint == vault.token0_mint
            },
        },
        r == Err::<SwapPlan, VaultError>(VaultError::InsufficientTreasuryBalance)
            ==> match direction {
            SwapDirection::Token0ToToken1 => accounts.token0_treasury.amount < amount_in,
            SwapDirection::Token1ToToken0 => accounts.token1_treasury.amount < amount_in,
        },
{
}

/// The treasury of the token bought has no say: with any other balance in it the
/// answer is the same.
pub proof fn law_the_treasury_bought_has_no_say(
    vault: Vault,
    accounts: SwapInTreasury,
    amount_in: u64,
    minimum_amount_out: u64,
    direction: SwapDirection,
    obs_data: &[u8],
    now: i64,
    other: u64,
    r: Result<SwapPlan, VaultError>,
    s: Result<SwapPlan, VaultError>,
)
    requires
        call_ensures(
            begin,
            (&vault, &accounts, amount_in, minimum_amount_out, direction, obs_data, now),
            r,
        ),
        call_ensures(
            begin,
            (
                &vault,
                &with_other_balance(accounts, direction, other),
                amount_in,
                minimum_amount_out,
                direction,
                obs_data,
                now,
            ),
            s,
        ),
    ensures
        r == s,
{
}

/// The accounts with `other` in the treasury of the token bought.
pub open spec fn with_other_balance(
    accounts: SwapInTreasury,
    direction: SwapDirection,
    other: u64,
) -> SwapInTreasury {
    match direction {
        SwapDirection::Token0ToToken1 => SwapInTreasury {
            token1_treasury: crate::accounts::TokenAccount {
                amount: other,
                ..accounts.token1_treasury
            },
            ..accounts
        },
        SwapDirection::Token1ToToken0 => SwapInTreasury {
            token0_treasury: crate::accounts::TokenAccount {
                amount: other,
                ..accounts.token0_treasury
            },
            ..accounts
        },
    }
}

/// Who may swap, through which pool and which of its accounts: a swap goes ahead
/// only on request of the operator or the admin, through the vault's pool, with
/// the oracle, the configuration and the two token accounts that the pool names,
/// and with something sold for something. Each of the answers to the contrary
/// comes only where it is true.
pub proof fn law_a_swap_goes_through_the_pool(
    vault: Vault,
    accounts: SwapInTreasury,
    amount_in: u64,
    minimum_amount_out: u64,
    direction: SwapDirection,
    obs_data: &[u8],
    now: i64,
    reference: Option<u128>,
    r: Result<SwapPlan, VaultError>,
)
    requires
        call_ensures(
            begin,
            (&vault, &accounts, amount_in, minimum_amount_out, direction, obs_data, now),
            r,
        ),
        call_ensures(reference_sqrt_price, (obs_data,), reference),
    ensures
        ({
            let permitted = accounts.admin == vault.operator || accounts.admin == vault.admin;
            let priced = {
                &&& accounts.pool_state == vault.pool_id
                &&& accounts.observation_state == accounts.pool_observation_key
                &&& accounts.amm_config == accounts.pool_amm_config
            };
            let straight = {
                &&& accounts.input_vault.key == accounts.pool_token_vault_0
                &&& accounts.output_vault.key == accounts.pool_token_vault_1
            };
            let crossed = {
                &&& accounts.input_vault.key == accounts.pool_token_vault_1
                &&& accounts.output_vault.key == accounts.pool_token_vault_0
            };
            let matched = match direction {
                SwapDirection::Token0ToToken1 => accounts.input_vault.mint == vault.token0_mint
                    && accounts.output_vault.mint == vault.token1_mint,
                SwapDirection::Token1ToToken0 => accounts.input_vault.mint == vault.token1_mint
                    && accounts.output_vault.mint == vault.token0_mint,
            };
            match r {
                Ok(_) => {
                    &&& permitted
                    &&& priced
                    &&& straight || crossed
                    &&& amount_in > 0
                    &&& minimum_amount_out > 0
                    &&& reference is Some
                },
                Err(VaultError::Unauthorized) => !permitted,
                Err(VaultError::InvalidPriceFeed) => !priced,
                Err(VaultError::InvalidAmount) => amount_in == 0 || minimum_amount_out == 0,
                Err(VaultError::InvalidMint) => !(straight || crossed) || !matched,
                Err(VaultError::OracleUnavailable) => reference is None,
                Err(e) => {
                    ||| e == VaultError::MathOverflow
                    ||| e == VaultError::SlippageExceeded
                    ||| e == VaultError::SwapCooldownActive
                    ||| e == VaultError::SwapVolumeExceeded
                    ||| e == VaultError::InsufficientTreasuryBalance
                },
            }
        }),
{
}

/// The limits of a swap at a reference price. `sells_first` says whether the
/// token sold is the pool's first. It is the vault's token0 that is the pool's
/// first where the mints say so, and the other token where they do not.
///
/// A swap goes ahead only where it asks for at least the floor under its output,
/// where a minute has gone by since the last one, and where its value, with that
/// of the other swaps of the hour, stays within the treasury's worth: the pool's
/// second token as it is, and the pool's first at the reference price. What it
/// leaves behind is the hour's volume with its own value, in a window that starts
/// anew after an hour.
pub proof fn law_a_swap_keeps_the_limits(
    vault: Vault,
    accounts: SwapInTreasury,
    amount_in: u64,
    minimum_amount_out: u64,
    direction: SwapDirection,
    reference: u128,
    now: i64,
    sells_first: bool,
    floor: Option<u64>,
    value: Option<u128>,
    first_worth: Option<u128>,
    r: Result<SwapPlan, VaultError>,
)
    requires
        call_ensures(
            check_limits,
            (&vault, &accounts, amount_in, minimum_amount_out, direction, reference, now),
            r,
        ),
        sells_first == ((direction == SwapDirection::Token0ToToken1) == (vault.token0_mint
            == accounts.pool_token_mint_0)),
        call_ensures(swap_min_out_floor, (reference, amount_in, sells_first), floor),
        call_ensures(value_in_token1, (reference, amount_in, sells_first), value),
        call_ensures(
            value_in_token1,
            (
                reference,
                if vault.token0_mint == accounts.pool_token_mint_0 {
                    vault.treasury_token0
                } else {
                    vault.treasury_token1
                },
                true,
            ),
            first_worth,
        ),
    ensures
        ({
            let second = if vault.token0_mint == accounts.pool_token_mint_0 {
                vault.treasury_token1
            } else {
                vault.treasury_token0
            };
            let worth = second + match first_worth {
                Some(v) => v as int,
                None => 0,
            };
            let anew = now - vault.swap_window_start >= 3_600;
            let hour = if anew {
                0
            } else {
                vault.swap_volume_in_window as int
            };
            match r {
                Ok(plan) => {
                    &&& floor is Some
                    &&& minimum_amount_out >= floor->0
                    &&& value is Some
                    &&& now - vault.last_swap_at >= 60
                    &&& hour + value->0 <= worth
                    &&& plan.window_volume == lesser(hour + value->0, u64::MAX as int)
                    &&& plan.window_start == (if anew {
                        now
                    } else {
                        vault.swap_window_start
                    })
                },
                Err(VaultError::MathOverflow) => floor is None || value is None,
                Err(VaultError::SlippageExceeded) => floor is Some && minimum_amount_out
                    < floor->0,
                Err(VaultError::SwapCooldownActive) => now - vault.last_swap_at < 60,
                Err(VaultError::SwapVolumeExceeded) => value is Some && hour + value->0 > worth,
                Err(_) => false,
            }
        }),
{
}

/// Beginning a swap answers with the limits at the oracle's price, once nothing
/// before and after them refuses it.
pub proof fn law_a_swap_is_limited_at_the_reference(
    vault: Vault,
    accounts: SwapInTreasury,
    amount_in: u64,
    minimum_amount_out: u64,
    direction: SwapDirection,
    obs_data: &[u8],
    now: i64,
    reference: Option<u128>,
    r: Result<SwapPlan, VaultError>,
    limits: Result<SwapPlan, VaultError>,
)
    requires
        call_ensures(
            begin,
            (&vault, &accounts, amount_in, minimum_amount_out, direction, obs_data, now),
            r,
        ),
        call_ensures(reference_sqrt_price, (obs_data,), reference),
        reference is Some,
        call_ensures(
            check_limits,
            (&vault, &accounts, amount_in, minimum_amount_out, direction, reference->0, now),
            limits,
        ),
    ensures
        match r {
            Ok(plan) => limits == Ok::<SwapPlan, VaultError>(plan),
            Err(e) => e == VaultError::MathOverflow || e == VaultError::SlippageExceeded || e
                == VaultError::SwapCooldownActive || e == VaultError::SwapVolumeExceeded ==> limits
                == Err::<SwapPlan, VaultError>(e),
        },
{
}

/// Recording a swap takes the treasuries as they stand after it, the plan's
/// window and the time, and changes nothing else. The report says the same.
pub proof fn law_a_swap_is_recorded(
    vault: &mut Vault,
    plan: SwapPlan,
    amount_in: u64,
    direction: SwapDirection,
    treasury: Balances,
    now: i64,
    r: SwapEvent,
)
    requires
        call_ensures(finish, (vault, &plan, amount_in, direction, treasury, now), r),
    ensures
        final(vault).treasury_token0 == treasury.token0,
        final(vault).treasury_token1 == treasury.token1,
        final(vault).swap_window_start == plan.window_start,
        final(vault).swap_volume_in_window == plan.window_volume,
        final(vault).last_swap_at == now,
        *final(vault) == (Vault {
            treasury_token0: final(vault).treasury_token0,
            treasury_token1: final(vault).treasury_token1,
            swap_window_start: final(vault).swap_window_start,
            swap_volume_in_window: final(vault).swap_volume_in_window,
            last_swap_at: final(vault).last_swap_at,
            ..*old(vault)
        }),
        r.amount_in == amount_in,
        r.treasury_token0 == treasury.token0,
        r.treasury_token1 == treasury.token1,
        direction == SwapDirection::Token0ToToken1 ==> r.direction@ == "TOKEN0->TOKEN1"@,
        direction == SwapDirection::Token1ToToken0 ==> r.direction@ == "TOKEN1->TOKEN0"@,
{
}

} // verus!
