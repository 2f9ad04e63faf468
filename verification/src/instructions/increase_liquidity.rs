//! Adding liquidity to the position.
//!
//! In order: `begin`; the calls of `delegation`, with a treasury approving the
//! vault where an amount may be spent; `finish`.

use crate::accounts::{Balances, PositionAccounts, TokenAccount};
use crate::errors::VaultError;
use crate::events::LiquidityIncreased;
use crate::instructions::delegation::Grants;
use crate::instructions::open_position::{amounts_refusal, check_amounts, spent};
use crate::math::clamp_u64;
use crate::pubkey::Pubkey;
use crate::state::Vault;
use vstd::prelude::*;

verus! {

/// Accounts of an increase.
#[derive(Clone, Copy, Debug)]
pub struct IncreaseLiquidity {
    /// Who asks for the increase.
    pub admin: Pubkey,
    /// The vault's token0.
    pub token0_treasury: TokenAccount,
    /// The vault's token1.
    pub token1_treasury: TokenAccount,
    /// What shows the position to be the vault's.
    pub position: PositionAccounts,
}

/// Why an increase is refused, if it is.
pub open spec fn refusal(
    vault: Vault,
    accounts: IncreaseLiquidity,
    liquidity: int,
    amount_0_max: int,
    amount_1_max: int,
    slippage_bps: int,
) -> Option<VaultError> {
    if vault.admin != accounts.admin {
        Some(VaultError::Unauthorized)
    } else if !vault.has_active_position {
        Some(VaultError::NoActivePosition)
    } else if accounts.position.refusal(vault.position_mint) is Some {
        accounts.position.refusal(vault.position_mint)
    } else if amounts_refusal(liquidity, amount_0_max, slippage_bps) is Some {
        amounts_refusal(liquidity, amount_0_max, slippage_bps)
    } else if accounts.token0_treasury.amount < amount_0_max || accounts.token1_treasury.amount
        < amount_1_max {
        Some(VaultError::InsufficientTreasuryBalance)
    } else {
        None
    }
}

/// Checks that liquidity may be added. On success it tells which treasuries are
/// to approve the vault: those of which an amount may be spent.
pub fn begin(
    vault: &Vault,
    accounts: &IncreaseLiquidity,
    liquidity: u128,
    amount_0_max: u64,
    amount_1_max: u64,
    slippage_bps: u16,
) -> (r: Result<Grants, VaultError>)
    ensures
        r == (match refusal(
            *vault,
            *accounts,
            liquidity as int,
            amount_0_max as int,
            amount_1_max as int,
            slippage_bps as int,
        ) {
            Some(e) => Err::<Grants, VaultError>(e),
            None => Ok::<Grants, VaultError>(
                (Grants { token0: amount_0_max > 0, token1: amount_1_max > 0 }),
            ),
        }),
{
    if vault.admin != accounts.admin {
        return Err(VaultError::Unauthorized);
    }
    if !vault.has_active_position {
        return Err(VaultError::NoActivePosition);
    }
    match accounts.position.check(&vault.position_mint) {
        Err(e) => return Err(e),
        Ok(()) => {},
    }
    match check_amounts(liquidity, amount_0_max, slippage_bps) {
        Err(e) => return Err(e),
        Ok(()) => {},
    }
    if accounts.token0_treasury.amount < amount_0_max {
        return Err(VaultError::InsufficientTreasuryBalance);
    }
    if accounts.token1_treasury.amount < amount_1_max {
        return Err(VaultError::InsufficientTreasuryBalance);
    }
    Ok(Grants { token0: amount_0_max > 0, token1: amount_1_max > 0 })
}

/// The vault after an increase. `before` and `after` are the treasuries before
/// and after the pool's call, and `liquidity` is what the pool records.
pub open spec fn vault_after(vault: Vault, liquidity: u128, before: Balances, after: Balances) -> Vault {
    Vault {
        position_liquidity: liquidity,
        position_token0: clamp_u64(vault.position_token0 + spent(before, after).token0),
        position_token1: clamp_u64(vault.position_token1 + spent(before, after).token1),
        treasury_token0: after.token0,
        treasury_token1: after.token1,
        ..vault
    }
}

/// Records liquidity that has been added.
pub fn finish(vault: &mut Vault, liquidity: u128, before: Balances, after: Balances) -> (r:
    LiquidityIncreased)
    ensures
        *final(vault) == vault_after(*old(vault), liquidity, before, after),
        r == (LiquidityIncreased {
            token0_added: spent(before, after).token0,
            token1_added: spent(before, after).token1,
            new_liquidity: liquidity,
        }),
{
    let token0_added: u64 = before.token0.saturating_sub(after.token0);
    let token1_added: u64 = before.token1.saturating_sub(after.token1);
    vault.position_liquidity = liquidity;
    vault.position_token0 = vault.position_token0.saturating_add(token0_added);
    vault.position_token1 = vault.position_token1.saturating_add(token1_added);
    vault.treasury_token0 = after.token0;
    vault.treasury_token1 = after.token1;
    LiquidityIncreased { token0_added, token1_added, new_liquidity: liquidity }
}

} // verus!
