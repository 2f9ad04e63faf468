//! Setting up a vault for a pool.

use crate::accounts::{MintAccount, VaultBumps};
use crate::constants::MAX_DECIMALS;
use crate::errors::VaultError;
use crate::events::VaultInitialized;
use crate::pubkey::{no_key, Pubkey};
use crate::state::{empty_vault, Vault};
use vstd::prelude::*;

verus! {

/// Accounts of a new vault, and what the pool says.
#[derive(Clone, Copy, Debug)]
pub struct Initialize {
    /// Mint of the vault's shares.
    pub share_mint: Pubkey,
    /// Account that will hold token0.
    pub token0_treasury: Pubkey,
    /// Account that will hold token1.
    pub token1_treasury: Pubkey,
    /// Mint of token0.
    pub token0_mint: MintAccount,
    /// Mint of token1.
    pub token1_mint: MintAccount,
    /// The pool.
    pub pool: Pubkey,
    /// The pool's first mint.
    pub pool_mint_0: Pubkey,
    /// The pool's second mint.
    pub pool_mint_1: Pubkey,
    /// Bumps of the vault's addresses.
    pub bumps: VaultBumps,
}

/// Why a vault is refused, if it is.
pub open spec fn refusal(accounts: Initialize, admin: Pubkey, protocol_wallet: Pubkey) -> Option<
    VaultError,
> {
    let mint0 = accounts.token0_mint.key;
    let mint1 = accounts.token1_mint.key;
    if admin == no_key() || protocol_wallet == no_key() {
        Some(VaultError::Unauthorized)
    } else if mint0 == mint1 {
        Some(VaultError::InvalidMint)
    } else if !((mint0 == accounts.pool_mint_0 && mint1 == accounts.pool_mint_1) || (mint0
        == accounts.pool_mint_1 && mint1 == accounts.pool_mint_0)) {
        Some(VaultError::InvalidMint)
    } else if accounts.token0_mint.decimals > MAX_DECIMALS || accounts.token1_mint.decimals
        > MAX_DECIMALS {
        Some(VaultError::InvalidMint)
    } else {
        None
    }
}

/// A new vault. Its admin is also its operator. Of what the account held before,
/// only the stamps of the last collection and the last swap stay; in a fresh
/// account they are zero.
pub open spec fn new_vault(
    fresh: Vault,
    accounts: Initialize,
    admin: Pubkey,
    protocol_wallet: Pubkey,
) -> Vault {
    Vault {
        admin,
        operator: admin,
        share_mint: accounts.share_mint,
        pool_id: accounts.pool,
        token0_mint: accounts.token0_mint.key,
        token1_mint: accounts.token1_mint.key,
        token0_treasury: accounts.token0_treasury,
        token1_treasury: accounts.token1_treasury,
        protocol_wallet,
        token0_decimals: accounts.token0_mint.decimals,
        token1_decimals: accounts.token1_mint.decimals,
        bump: accounts.bumps.vault,
        token0_treasury_bump: accounts.bumps.token0_treasury,
        token1_treasury_bump: accounts.bumps.token1_treasury,
        share_mint_bump: accounts.bumps.share_mint,
        last_fee_collection_slot: fresh.last_fee_collection_slot,
        last_swap_at: fresh.last_swap_at,
        ..empty_vault()
    }
}

/// Sets up a vault. Whoever pays for its accounts does not thereby become the
/// admin.
pub fn handler(
    vault: &mut Vault,
    accounts: &Initialize,
    admin: &Pubkey,
    protocol_wallet: &Pubkey,
) -> (r: Result<VaultInitialized, VaultError>)
    ensures
        match refusal(*accounts, *admin, *protocol_wallet) {
            Some(e) => {
                &&& r == Err::<VaultInitialized, VaultError>(e)
                &&& *final(vault) == *old(vault)
            },
            None => {
                &&& r == Ok::<VaultInitialized, VaultError>(
                    (VaultInitialized {
                        admin: *admin,
                        protocol_wallet: *protocol_wallet,
                        share_mint: accounts.share_mint,
                        token0_treasury: accounts.token0_treasury,
                        token1_treasury: accounts.token1_treasury,
                        pool_id: accounts.pool,
                    }),
                )
                &&& *final(vault) == new_vault(*old(vault), *accounts, *admin, *protocol_wallet)
            },
        },
{
    let none: Pubkey = Pubkey::default();
    if *admin == none {
        return Err(VaultError::Unauthorized);
    }
    if *protocol_wallet == none {
        return Err(VaultError::Unauthorized);
    }
    let mint0: Pubkey = accounts.token0_mint.key;
    let mint1: Pubkey = accounts.token1_mint.key;
    if mint0 == mint1 {
        return Err(VaultError::InvalidMint);
    }
    if !((mint0 == accounts.pool_mint_0 && mint1 == accounts.pool_mint_1) || (mint0
        == accounts.pool_mint_1 && mint1 == accounts.pool_mint_0)) {
        return Err(VaultError::InvalidMint);
    }
    if accounts.token0_mint.decimals > MAX_DECIMALS || accounts.token1_mint.decimals
        > MAX_DECIMALS {
        return Err(VaultError::InvalidMint);
    }
    vault.admin = *admin;
    vault.operator = *admin;
    vault.share_mint = accounts.share_mint;
    vault.pool_id = accounts.pool;
    vault.token0_mint = mint0;
    vault.token1_mint = mint1;
    vault.token0_treasury = accounts.token0_treasury;
    vault.token1_treasury = accounts.token1_treasury;
    vault.protocol_wallet = *protocol_wallet;
    vault.total_shares = 0;
    vault.treasury_token0 = 0;
    vault.treasury_token1 = 0;
    vault.token0_decimals = accounts.token0_mint.decimals;
    vault.token1_decimals = accounts.token1_mint.decimals;
    vault.bump = accounts.bumps.vault;
    vault.token0_treasury_bump = accounts.bumps.token0_treasury;
    vault.token1_treasury_bump = accounts.bumps.token1_treasury;
    vault.share_mint_bump = accounts.bumps.share_mint;
    vault.position_mint = none;
    vault.has_active_position = false;
    vault.position_token0 = 0;
    vault.position_token1 = 0;
    vault.position_liquidity = 0;
    vault.position_tick_lower = 0;
    vault.position_tick_upper = 0;
    vault.is_paused = false;
    vault.is_rebalancing = false;
    vault.pending_admin = none;
    vault.accumulated_protocol_fees_token0 = 0;
    vault.accumulated_protocol_fees_token1 = 0;
    vault.rebalance_started_at = 0;
    vault.swap_window_start = 0;
    vault.swap_volume_in_window = 0;
    Ok(
        VaultInitialized {
            admin: *admin,
            protocol_wallet: *protocol_wallet,
            share_mint: accounts.share_mint,
            token0_treasury: accounts.token0_treasury,
            token1_treasury: accounts.token1_treasury,
            pool_id: accounts.pool,
        },
    )
}

/// A new vault has no shares, no funds, no fees and no position. Its admin
/// operates it, and nobody is proposed as the next admin.
pub proof fn law_new_vault_is_empty(
    fresh: Vault,
    accounts: Initialize,
    admin: Pubkey,
    protocol_wallet: Pubkey,
    price: int,
)
    ensures
        ({
            let v = new_vault(fresh, accounts, admin, protocol_wallet);
            &&& v.total_shares == 0
            &&& v.user_token0() == 0
            &&& v.user_token1() == 0
            &&& v.tvl(price, 0, 0) == 0
            &&& v.covers_fees()
            &&& !v.has_active_position
            &&& v.operates(admin)
            &&& v.pending_admin == no_key()
        }),
{
    assert(0 * price == 0) by (nonlinear_arith);
    vstd::arithmetic::power::lemma_pow_positive(10, accounts.token0_mint.decimals as nat);
    let scale = crate::math::pow10(accounts.token0_mint.decimals as int);
    crate::math::lemma_div_unique(0, scale, 0);
}

} // verus!
