//! Recording what the position holds at the current price.
//!
//! Anyone may ask for it. In order: `begin`; read the pool program's record of
//! the position; `sync_handler`.

use crate::accounts::{check_position_account, is_position_account, PersonalPosition, PoolPrice};
use crate::errors::{outcome, VaultError};
use crate::liquidity::{calculate_position_amounts, position_amounts, position_amounts_fit};
use crate::pubkey::Pubkey;
use crate::state::Vault;
use vstd::prelude::*;

verus! {

/// Accounts of a synchronisation.
#[derive(Clone, Copy, Debug)]
pub struct SyncPositionValue {
    /// The pool.
    pub pool_state: Pubkey,
    /// The pool program's record of the position.
    pub personal_position: Pubkey,
}

/// Why the vault or the pool is refused, if it is.
pub open spec fn pool_refusal(vault: Vault, pool_state: Pubkey) -> Option<VaultError> {
    if !vault.has_active_position {
        Some(VaultError::NoActivePosition)
    } else if vault.pool_id != pool_state {
        Some(VaultError::InvalidPriceFeed)
    } else {
        None
    }
}

/// Checks that the vault has a position, and that it is in the pool.
pub fn check_pool(vault: &Vault, pool_state: &Pubkey) -> (r: Result<(), VaultError>)
    ensures
        r == outcome(pool_refusal(*vault, *pool_state)),
{
    if !vault.has_active_position {
        return Err(VaultError::NoActivePosition);
    }
    if vault.pool_id != *pool_state {
        return Err(VaultError::InvalidPriceFeed);
    }
    Ok(())
}

/// Checks the accounts. On success the record of the position is to be read.
pub fn begin(vault: &Vault, accounts: &SyncPositionValue, clmm_program: &Pubkey) -> (r: Result<
    (),
    VaultError,
>)
    ensures
        r == outcome(
            if pool_refusal(*vault, accounts.pool_state) is Some {
                pool_refusal(*vault, accounts.pool_state)
            } else if is_position_account(
                accounts.personal_position,
                vault.position_mint,
                *clmm_program,
            ) {
                None
            } else {
                Some(VaultError::InvalidPosition)
            },
        ),
{
    match check_pool(vault, &accounts.pool_state) {
        Err(e) => return Err(e),
        Ok(()) => {},
    }
    check_position_account(&accounts.personal_position, &vault.position_mint, clmm_program)
}

/// What a position holds at a pool's price, as `(token0, token1)` of a vault
/// whose token0 has the mint `token0_mint`.
pub open spec fn amounts_of(position: PersonalPosition, pool: PoolPrice, token0_mint: Pubkey) -> (
    u64,
    u64,
) {
    position_amounts(
        pool.sqrt_price_x64 as int,
        pool.tick_current as int,
        position.tick_lower_index as int,
        position.tick_upper_index as int,
        position.liquidity as int,
        pool.token_mint_0 == token0_mint,
    )
}

/// The amounts can be worked out without overflow.
pub open spec fn amounts_fit(position: PersonalPosition, pool: PoolPrice) -> bool {
    position_amounts_fit(
        pool.sqrt_price_x64 as int,
        pool.tick_current as int,
        position.tick_lower_index as int,
        position.tick_upper_index as int,
        position.liquidity as int,
    )
}

/// The vault after a synchronisation. A position without liquidity holds
/// nothing.
pub open spec fn vault_after(vault: Vault, position: PersonalPosition, pool: PoolPrice) -> Vault {
    let amounts = amounts_of(position, pool, vault.token0_mint);
    Vault {
        position_token0: if position.liquidity == 0 {
            0
        } else {
            amounts.0
        },
        position_token1: if position.liquidity == 0 {
            0
        } else {
            amounts.1
        },
        position_liquidity: position.liquidity,
        ..vault
    }
}

/// Records what the position holds at the pool's price.
pub fn sync_handler(vault: &mut Vault, position: &PersonalPosition, pool: &PoolPrice)
    requires
        position.liquidity != 0 ==> amounts_fit(*position, *pool),
    ensures
        *final(vault) == vault_after(*old(vault), *position, *pool),
{
    if position.liquidity == 0 {
        vault.position_token0 = 0;
        vault.position_token1 = 0;
        vault.position_liquidity = 0;
        return;
    }
    let token0_is_pool_token0: bool = pool.token_mint_0 == vault.token0_mint;
    let (token0, token1): (u64, u64) = calculate_position_amounts(
        pool.sqrt_price_x64,
        pool.tick_current,
        position.tick_lower_index,
        position.tick_upper_index,
        position.liquidity,
        token0_is_pool_token0,
    );
    vault.position_token0 = token0;
    vault.position_token1 = token1;
    vault.position_liquidity = position.liquidity;
}

/// Recording the same position at the same price again changes nothing.
pub proof fn law_sync_is_idempotent(vault: Vault, position: PersonalPosition, pool: PoolPrice)
    ensures
        vault_after(vault_after(vault, position, pool), position, pool) == vault_after(
            vault,
            position,
            pool,
        ),
{
}

} // verus!
