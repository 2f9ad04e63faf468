//! What the instructions read of the accounts that they are handed.

use crate::errors::{outcome, VaultError};
use crate::pubkey::{find_program_address, program_address, Pubkey};
use crate::seeds;
use vstd::prelude::*;

verus! {

/// A token account.
#[derive(Clone, Copy, Debug)]
pub struct TokenAccount {
    /// Its address.
    pub key: Pubkey,
    /// The mint of the token that it holds.
    pub mint: Pubkey,
    /// Who may move the tokens.
    pub owner: Pubkey,
    /// How many raw units it holds.
    pub amount: u64,
}

/// A mint.
#[derive(Clone, Copy, Debug)]
pub struct MintAccount {
    /// Its address.
    pub key: Pubkey,
    /// Its decimals.
    pub decimals: u8,
}

/// Bumps of the vault's addresses.
#[derive(Clone, Copy, Debug, PartialEq, Eq, Structural)]
pub struct VaultBumps {
    pub vault: u8,
    pub share_mint: u8,
    pub token0_treasury: u8,
    pub token1_treasury: u8,
}

/// A token balance of each treasury.
#[derive(Clone, Copy, Debug, PartialEq, Eq, Structural)]
pub struct Balances {
    pub token0: u64,
    pub token1: u64,
}

/// A position as the pool program records it.
#[derive(Clone, Copy, Debug, PartialEq, Eq, Structural)]
pub struct PersonalPosition {
    /// Lower tick.
    pub tick_lower_index: i32,
    /// Upper tick.
    pub tick_upper_index: i32,
    /// Liquidity.
    pub liquidity: u128,
}

/// What the instructions read of a pool's price.
#[derive(Clone, Copy, Debug)]
pub struct PoolPrice {
    /// The pool's first mint.
    pub token_mint_0: Pubkey,
    /// The square-root price in Q64.64.
    pub sqrt_price_x64: u128,
    /// The current tick.
    pub tick_current: i32,
}

/// `key` is the address at which the pool program keeps the position whose
/// token has the mint `position_mint`.
pub open spec fn is_position_account(key: Pubkey, position_mint: Pubkey, clmm_program: Pubkey) -> bool {
    program_address(seq![seeds::POSITION@, position_mint@], clmm_program@) == Some(key@)
}

/// Compares an account's address with the one derived for a position. `derived`
/// is what the derivation gave.
pub fn is_derived_address(key: &Pubkey, derived: Option<Pubkey>) -> (r: bool)
    ensures
        r == (match derived {
            Some(found) => Some(found@) == Some(key@),
            None => false,
        }),
{
    match derived {
        Some(found) => {
            proof {
                if found@ == key@ {
                    crate::pubkey::lemma_key_ext(found, *key);
                }
            }
            found == *key
        },
        None => false,
    }
}

/// Checks that an account is the pool program's record of the vault's position.
/// Where no address can be derived for the record, no account is.
pub fn check_position_account(key: &Pubkey, position_mint: &Pubkey, clmm_program: &Pubkey) -> (r:
    Result<(), VaultError>)
    ensures
        r == (if is_position_account(*key, *position_mint, *clmm_program) {
            Ok::<(), VaultError>(())
        } else {
            Err::<(), VaultError>(VaultError::InvalidPosition)
        }),
{
    let derived: Option<Pubkey> = find_program_address(
        &seeds::POSITION,
        position_mint,
        clmm_program,
    );
    if is_derived_address(key, derived) {
        Ok(())
    } else {
        Err(VaultError::InvalidPosition)
    }
}

/// What a holder's withdrawal is paid from and to.
#[derive(Clone, Copy, Debug)]
pub struct HolderAccounts {
    /// Who withdraws.
    pub user: Pubkey,
    /// Mint of the vault's shares.
    pub share_mint: Pubkey,
    /// The holder's shares.
    pub user_share_account: TokenAccount,
    /// The vault's token0.
    pub token0_treasury: TokenAccount,
    /// The vault's token1.
    pub token1_treasury: TokenAccount,
    /// Where the holder's token0 goes.
    pub user_token0_account: TokenAccount,
    /// Where the holder's token1 goes.
    pub user_token1_account: TokenAccount,
}

impl HolderAccounts {
    /// Why the accounts are refused, if they are. `recorded_user` is whose
    /// deposit record it is.
    pub open spec fn refusal(self, recorded_user: Pubkey) -> Option<VaultError> {
        if recorded_user != self.user {
            Some(VaultError::ConstraintRaw)
        } else if self.user_share_account.owner != self.user {
            Some(VaultError::ConstraintRaw)
        } else if self.user_share_account.mint != self.share_mint {
            Some(VaultError::ConstraintRaw)
        } else if self.user_token0_account.owner != self.user {
            Some(VaultError::ConstraintRaw)
        } else if self.user_token0_account.mint != self.token0_treasury.mint {
            Some(VaultError::InvalidMint)
        } else if self.user_token1_account.owner != self.user {
            Some(VaultError::ConstraintRaw)
        } else if self.user_token1_account.mint != self.token1_treasury.mint {
            Some(VaultError::InvalidMint)
        } else {
            None
        }
    }

    /// Checks that the accounts are the holder's and of the right mints.
    pub fn check(&self, recorded_user: &Pubkey) -> (r: Result<(), VaultError>)
        ensures
            r == outcome(self.refusal(*recorded_user)),
    {
        if *recorded_user != self.user {
            return Err(VaultError::ConstraintRaw);
        }
        if self.user_share_account.owner != self.user {
            return Err(VaultError::ConstraintRaw);
        }
        if self.user_share_account.mint != self.share_mint {
            return Err(VaultError::ConstraintRaw);
        }
        if self.user_token0_account.owner != self.user {
            return Err(VaultError::ConstraintRaw);
        }
        if self.user_token0_account.mint != self.token0_treasury.mint {
            return Err(VaultError::InvalidMint);
        }
        if self.user_token1_account.owner != self.user {
            return Err(VaultError::ConstraintRaw);
        }
        if self.user_token1_account.mint != self.token1_treasury.mint {
            return Err(VaultError::InvalidMint);
        }
        Ok(())
    }
}

/// The accounts that show a position to be the vault's.
#[derive(Clone, Copy, Debug)]
pub struct PositionAccounts {
    /// The pool.
    pub pool_state: Pubkey,
    /// The account with the position's token.
    pub position_nft_account: TokenAccount,
    /// The pool that the position's record names.
    pub personal_position_pool_id: Pubkey,
}

impl PositionAccounts {
    /// Why the accounts are refused, if they are.
    pub open spec fn refusal(self, position_mint: Pubkey) -> Option<VaultError> {
        if self.position_nft_account.amount != 1 {
            Some(VaultError::ConstraintRaw)
        } else if self.position_nft_account.mint != position_mint {
            Some(VaultError::InvalidPosition)
        } else if self.personal_position_pool_id != self.pool_state {
            Some(VaultError::ConstraintRaw)
        } else {
            None
        }
    }

    /// Checks that the accounts are those of the position whose token has the
    /// mint `position_mint`.
    pub fn check(&self, position_mint: &Pubkey) -> (r: Result<(), VaultError>)
        ensures
            r == outcome(self.refusal(*position_mint)),
    {
        if self.position_nft_account.amount != 1 {
            return Err(VaultError::ConstraintRaw);
        }
        if self.position_nft_account.mint != *position_mint {
            return Err(VaultError::InvalidPosition);
        }
        if self.personal_position_pool_id != self.pool_state {
            return Err(VaultError::ConstraintRaw);
        }
        Ok(())
    }
}

} // verus!
