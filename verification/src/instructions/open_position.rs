//! Opening a position with funds from the treasury.
//!
//! In order: `begin`; the calls of `delegation`, with both treasuries approving
//! the operator; `finish`.

use crate::accounts::{Balances, TokenAccount};
use crate::constants::MAX_SLIPPAGE_BPS;
use crate::errors::{outcome, VaultError};
use crate::events::PositionOpened;
use crate::instructions::delegation::Grants;
use crate::math::monus;
use crate::pubkey::Pubkey;
use crate::state::{range_refusal, validate_position_range, Vault};
use vstd::prelude::*;

verus! {

/// Accounts of an opening, and what the pool says.
#[derive(Clone, Copy, Debug)]
pub struct OpenPosition {
    /// Who asks for the opening.
    pub operator: Pubkey,
    /// The vault's token0.
    pub token0_treasury: TokenAccount,
    /// The vault's token1.
    pub token1_treasury: TokenAccount,
    /// The pool.
    pub pool_state: Pubkey,
    /// The pool's current tick.
    pub tick_current: i32,
    /// The pool's tick spacing.
    pub tick_spacing: u16,
}

/// What an opening asks for.
#[derive(Clone, Copy, Debug, PartialEq, Eq, Structural)]
pub struct OpenRequest {
    /// Lower tick.
    pub tick_lower_index: i32,
    /// Upper tick.
    pub tick_upper_index: i32,
    /// Liquidity, or zero to derive it from the amount of token0.
    pub liquidity: u128,
    /// Most token0 to spend.
    pub amount_0_max: u64,
    /// Most token1 to spend.
    pub amount_1_max: u64,
    /// Slippage in basis points.
    pub slippage_bps: u16,
}

/// Why liquidity may not be added with these arguments, if it may not.
pub open spec fn amounts_refusal(liquidity: int, amount_0_max: int, slippage_bps: int) -> Option<
    VaultError,
> {
    if liquidity == 0 && amount_0_max == 0 {
        Some(VaultError::InvalidAmount)
    } else if slippage_bps > MAX_SLIPPAGE_BPS {
        Some(VaultError::SlippageTooHigh)
    } else {
        None
    }
}

/// Checks the arguments with which liquidity is added.
pub fn check_amounts(liquidity: u128, amount_0_max: u64, slippage_bps: u16) -> (r: Result<
    (),
    VaultError,
>)
    ensures
        r == outcome(
            amounts_refusal(liquidity as int, amount_0_max as int, slippage_bps as int),
        ),
{
    if liquidity == 0 && amount_0_max == 0 {
        return Err(VaultError::InvalidAmount);
    }
    if slippage_bps > MAX_SLIPPAGE_BPS {
        return Err(VaultError::SlippageTooHigh);
    }
    Ok(())
}

/// Why an opening is refused before its range is looked at, if it is.
pub open spec fn request_refusal(vault: Vault, accounts: OpenPosition, request: OpenRequest) -> Option<
    VaultError,
> {
    if !vault.operates(accounts.operator) {
        Some(VaultError::Unauthorized)
    } else if vault.has_active_position {
        Some(VaultError::PositionAlreadyExists)
    } else if accounts.pool_state != vault.pool_id {
        Some(VaultError::InvalidPriceFeed)
    } else if request.tick_lower_index >= request.tick_upper_index {
        Some(VaultError::InvalidTickRange)
    } else {
        amounts_refusal(
            request.liquidity as int,
            request.amount_0_max as int,
            request.slippage_bps as int,
        )
    }
}

/// Why an opening is refused, if it is.
pub open spec fn refusal(vault: Vault, accounts: OpenPosition, request: OpenRequest) -> Option<
    VaultError,
> {
    let range = range_refusal(
        request.tick_lower_index as int,
        request.tick_upper_index as int,
        accounts.tick_current as int,
        accounts.tick_spacing as int,
    );
    if request_refusal(vault, accounts, request) is Some {
        request_refusal(vault, accounts, request)
    } else if range is Some {
        range
    } else if accounts.token0_treasury.amount < request.amount_0_max
        || accounts.token1_treasury.amount < request.amount_1_max {
        Some(VaultError::InsufficientTreasuryBalance)
    } else {
        None
    }
}

/// Checks everything about an opening that comes before its range.
pub fn check_request(vault: &Vault, accounts: &OpenPosition, request: &OpenRequest) -> (r: Result<
    (),
    VaultError,
>)
    ensures
        r == outcome(request_refusal(*vault, *accounts, *request)),
{
    if !vault.is_operator(&accounts.operator) {
        return Err(VaultError::Unauthorized);
    }
    if vault.has_active_position {
        return Err(VaultError::PositionAlreadyExists);
    }
    if accounts.pool_state != vault.pool_id {
        return Err(VaultError::InvalidPriceFeed);
    }
    if request.tick_lower_index >= request.tick_upper_index {
        return Err(VaultError::InvalidTickRange);
    }
    check_amounts(request.liquidity, request.amount_0_max, request.slippage_bps)
}

/// The width of the range fits in 32 bits, or the opening is refused before it is
/// looked at.
pub open spec fn begin_fits(vault: Vault, accounts: OpenPosition, request: OpenRequest) -> bool {
    request_refusal(vault, accounts, request) is None ==> request.tick_upper_index
        - request.tick_lower_index <= i32::MAX
}

/// Tells whether `begin` may be called.
pub fn can_begin(vault: &Vault, accounts: &OpenPosition, request: &OpenRequest) -> (r: bool)
    ensures
        r == begin_fits(*vault, *accounts, *request),
{
    match check_request(vault, accounts, request) {
        Err(_) => true,
        Ok(()) => request.tick_upper_index as i64 - request.tick_lower_index as i64
            <= i32::MAX as i64,
    }
}

/// Checks that a position may be opened. On success both treasuries are to
/// approve the operator for the greatest amounts, and the pool is to be called.
pub fn begin(vault: &Vault, accounts: &OpenPosition, request: &OpenRequest) -> (r: Result<
    Grants,
    VaultError,
>)
    requires
        begin_fits(*vault, *accounts, *request),
    ensures
        r == (match refusal(*vault, *accounts, *request) {
            Some(e) => Err::<Grants, VaultError>(e),
            None => Ok::<Grants, VaultError>((Grants { token0: true, token1: true })),
        }),
{
    match check_request(vault, accounts, request) {
        Err(e) => return Err(e),
        Ok(()) => {},
    }
    match validate_position_range(
        request.tick_lower_index,
        request.tick_upper_index,
        accounts.tick_current,
        accounts.tick_spacing as i32,
    ) {
        Err(e) => return Err(e),
        Ok(()) => {},
    }
    if accounts.token0_treasury.amount < request.amount_0_max {
        return Err(VaultError::InsufficientTreasuryBalance);
    }
    if accounts.token1_treasury.amount < request.amount_1_max {
        return Err(VaultError::InsufficientTreasuryBalance);
    }
    Ok(Grants { token0: true, token1: true })
}

/// What left the treasuries.
pub open spec fn spent(before: Balances, after: Balances) -> Balances {
    Balances {
        token0: monus(before.token0 as int, after.token0 as int) as u64,
        token1: monus(before.token1 as int, after.token1 as int) as u64,
    }
}

/// The vault after an opening. `before` and `after` are the treasuries before and
/// after the pool's call, and `liquidity` is what the pool records.
pub open spec fn vault_after(
    vault: Vault,
    position_mint: Pubkey,
    request: OpenRequest,
    liquidity: u128,
    before: Balances,
    after: Balances,
) -> Vault {
    Vault {
        has_active_position: true,
        position_mint,
        position_tick_lower: request.tick_lower_index,
        position_tick_upper: request.tick_upper_index,
        position_liquidity: liquidity,
        position_token0: spent(before, after).token0,
        position_token1: spent(before, after).token1,
        treasury_token0: after.token0,
        treasury_token1: after.token1,
        is_rebalancing: false,
        rebalance_started_at: 0,
        ..vault
    }
}

/// Records a position that has been opened. It ends the rebalance, if there was
/// one.
pub fn finish(
    vault: &mut Vault,
    position_mint: &Pubkey,
    request: &OpenRequest,
    liquidity: u128,
    before: Balances,
    after: Balances,
) -> (r: PositionOpened)
    ensures
        *final(vault) == vault_after(
            *old(vault),
            *position_mint,
            *request,
            liquidity,
            before,
            after,
        ),
        r == (PositionOpened {
            position_mint: *position_mint,
            pool_id: old(vault).pool_id,
            tick_lower: request.tick_lower_index,
            tick_upper: request.tick_upper_index,
            liquidity,
            token0_used: spent(before, after).token0,
            token1_used: spent(before, after).token1,
        }),
{
    let token0_used: u64 = before.token0.saturating_sub(after.token0);
    let token1_used: u64 = before.token1.saturating_sub(after.token1);
    vault.has_active_position = true;
    vault.position_mint = *position_mint;
    vault.position_tick_lower = request.tick_lower_index;
    vault.position_tick_upper = request.tick_upper_index;
    vault.position_liquidity = liquidity;
    vault.position_token0 = token0_used;
    vault.position_token1 = token1_used;
    vault.treasury_token0 = after.token0;
    vault.treasury_token1 = after.token1;
    vault.is_rebalancing = false;
    vault.rebalance_started_at = 0;
    PositionOpened {
        position_mint: *position_mint,
        pool_id: vault.pool_id,
        tick_lower: request.tick_lower_index,
        tick_upper: request.tick_upper_index,
        liquidity,
        token0_used,
        token1_used,
    }
}

/// A position that is opened straddles the current price, is at least the least
/// and at most the greatest width, and has at least a fifth of its width on each
/// side of the price.
pub proof fn law_opened_range_is_bounded(vault: Vault, accounts: OpenPosition, request: OpenRequest)
    requires
        refusal(vault, accounts, request) is None,
        request.tick_upper_index - request.tick_lower_index <= i32::MAX,
    ensures
        ({
            let lower = request.tick_lower_index;
            let upper = request.tick_upper_index;
            &&& lower < accounts.tick_current < upper
            &&& 8 * accounts.tick_spacing <= upper - lower <= 20_000 * accounts.tick_spacing
            &&& 5 * (accounts.tick_current - lower) >= upper - lower
            &&& 5 * (upper - accounts.tick_current) >= upper - lower
        }),
{
}

/// While there is a position no second one is opened.
pub proof fn law_one_position_at_a_time(
    vault: Vault,
    position_mint: Pubkey,
    first: OpenRequest,
    liquidity: u128,
    before: Balances,
    after: Balances,
    accounts: OpenPosition,
    second: OpenRequest,
)
    ensures
        refusal(
            vault_after(vault, position_mint, first, liquidity, before, after),
            accounts,
            second,
        ) is Some,
{
}

} // verus!
