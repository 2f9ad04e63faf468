//! Paying the pool's reward tokens to the protocol's wallet.
//!
//! Rewards come into an account of the vault whenever fees are collected. They
//! are no part of what the holders own.

use crate::accounts::TokenAccount;
use crate::errors::VaultError;
use crate::events::RewardsExtracted;
use crate::pubkey::Pubkey;
use crate::state::Vault;
use vstd::prelude::*;

verus! {

/// Accounts of a reward payout.
#[derive(Clone, Copy, Debug)]
pub struct ExtractRewards {
    /// Who asks for the payout.
    pub admin: Pubkey,
    /// The vault's address.
    pub vault: Pubkey,
    /// Mint of the reward.
    pub reward_mint: Pubkey,
    /// The vault's account with the reward.
    pub vault_reward_account: TokenAccount,
    /// Where the reward goes.
    pub protocol_reward_account: TokenAccount,
}

/// Why a reward payout is refused, if it is.
pub open spec fn refusal(vault: Vault, accounts: ExtractRewards) -> Option<VaultError> {
    if vault.admin != accounts.admin {
        Some(VaultError::Unauthorized)
    } else if accounts.reward_mint == vault.token0_mint || accounts.reward_mint
        == vault.token1_mint {
        Some(VaultError::InvalidMint)
    } else if accounts.vault_reward_account.owner != accounts.vault {
        Some(VaultError::Unauthorized)
    } else if accounts.vault_reward_account.mint != accounts.reward_mint {
        Some(VaultError::InvalidMint)
    } else if accounts.protocol_reward_account.owner != vault.protocol_wallet {
        Some(VaultError::Unauthorized)
    } else if accounts.protocol_reward_account.mint != accounts.reward_mint {
        Some(VaultError::InvalidMint)
    } else if accounts.vault_reward_account.amount == 0 {
        Some(VaultError::NoRewardsToExtract)
    } else {
        None
    }
}

/// Checks that reward tokens may be paid out. On success all of them are to go
/// to the protocol's wallet. Neither of the pool's tokens counts as a reward.
pub fn handler(vault: &Vault, accounts: &ExtractRewards) -> (r: Result<
    RewardsExtracted,
    VaultError,
>)
    ensures
        r == (match refusal(*vault, *accounts) {
            Some(e) => Err::<RewardsExtracted, VaultError>(e),
            None => Ok::<RewardsExtracted, VaultError>(
                (RewardsExtracted {
                    reward_mint: accounts.reward_mint,
                    amount: accounts.vault_reward_account.amount,
                    protocol_wallet: vault.protocol_wallet,
                }),
            ),
        }),
{
    if vault.admin != accounts.admin {
        return Err(VaultError::Unauthorized);
    }
    if accounts.reward_mint == vault.token0_mint || accounts.reward_mint == vault.token1_mint {
        return Err(VaultError::InvalidMint);
    }
    if accounts.vault_reward_account.owner != accounts.vault {
        return Err(VaultError::Unauthorized);
    }
    if accounts.vault_reward_account.mint != accounts.reward_mint {
        return Err(VaultError::InvalidMint);
    }
    if accounts.protocol_reward_account.owner != vault.protocol_wallet {
        return Err(VaultError::Unauthorized);
    }
    if accounts.protocol_reward_account.mint != accounts.reward_mint {
        return Err(VaultError::InvalidMint);
    }
    let amount: u64 = accounts.vault_reward_account.amount;
    if amount == 0 {
        return Err(VaultError::NoRewardsToExtract);
    }
    Ok(
        RewardsExtracted {
            reward_mint: accounts.reward_mint,
            amount,
            protocol_wallet: vault.protocol_wallet,
        },
    )
}

} // verus!
