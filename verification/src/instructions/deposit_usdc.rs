//! A deposit of USDC into a managed vault.
//!
//! In order: `handler`; move the tokens in and mint the shares.

use crate::accounts::TokenAccount;
use crate::errors::VaultError;
use crate::events::DepositUsdcEvent;
use crate::managed::{ManagedDeposit, ManagedVault};
use crate::pubkey::Pubkey;
use crate::state::{shares_for, shares_for_deposit};
use vstd::prelude::*;

verus! {

/// How old a report may be to price a deposit, in seconds.
pub const MAX_TVL_AGE_SECS: i64 = 600;

/// Accounts of a deposit of USDC.
#[derive(Clone, Copy, Debug)]
pub struct DepositUsdc {
    /// Who deposits.
    pub user: Pubkey,
    /// The vault's address.
    pub vault: Pubkey,
    /// Where the tokens come from.
    pub user_usdc_account: TokenAccount,
    /// Mint of USDC.
    pub usdc_mint: Pubkey,
    /// Mint of the vault's shares.
    pub share_mint: Pubkey,
    /// Where the shares go.
    pub user_share_account: TokenAccount,
    /// Bump of the deposit record's address.
    pub user_deposit_bump: u8,
}

/// Why a deposit is refused before the report's age is looked at, if it is.
pub open spec fn request_refusal(vault: ManagedVault, accounts: DepositUsdc, amount: int) -> Option<
    VaultError,
> {
    if accounts.user_usdc_account.owner != accounts.user {
        Some(VaultError::ConstraintRaw)
    } else if accounts.user_usdc_account.mint != accounts.usdc_mint {
        Some(VaultError::ConstraintRaw)
    } else if accounts.user_share_account.owner != accounts.user {
        Some(VaultError::ConstraintRaw)
    } else if accounts.user_share_account.mint != accounts.share_mint {
        Some(VaultError::ConstraintRaw)
    } else if amount == 0 {
        Some(VaultError::InvalidAmount)
    } else if vault.is_paused {
        Some(VaultError::VaultPaused)
    } else {
        None
    }
}

/// Why a deposit is refused, if it is.
pub open spec fn refusal(
    vault: ManagedVault,
    record: ManagedDeposit,
    accounts: DepositUsdc,
    amount: int,
    now: int,
) -> Option<VaultError> {
    let shares = shares_for(amount, vault.total_shares as int, vault.tvl_usd as int);
    if request_refusal(vault, accounts, amount) is Some {
        request_refusal(vault, accounts, amount)
    } else if now - vault.last_tvl_update >= MAX_TVL_AGE_SECS && vault.total_shares != 0 {
        Some(VaultError::StaleTvl)
    } else if shares == 0 {
        Some(VaultError::InvalidAmount)
    } else if {
        ||| vault.treasury_usdc + amount > u64::MAX
        ||| vault.total_shares + shares > u64::MAX
        ||| vault.tvl_usd + amount > u64::MAX
        ||| record.shares + shares > u64::MAX
        ||| record.total_deposited_usdc + amount > u64::MAX
    } {
        Some(VaultError::MathOverflow)
    } else {
        None
    }
}

/// The vault after a deposit of `amount` for `shares`.
pub open spec fn vault_after(vault: ManagedVault, amount: int, shares: int) -> ManagedVault {
    ManagedVault {
        treasury_usdc: (vault.treasury_usdc + amount) as u64,
        total_shares: (vault.total_shares + shares) as u64,
        tvl_usd: (vault.tvl_usd + amount) as u64,
        ..vault
    }
}

/// The deposit record after a deposit of `amount` for `shares`. A fresh record is
/// made out to the depositor.
pub open spec fn record_after(
    record: ManagedDeposit,
    accounts: DepositUsdc,
    amount: int,
    shares: int,
    now: i64,
) -> ManagedDeposit {
    let made_out = if record.created_at == 0 {
        ManagedDeposit {
            user: accounts.user,
            vault: accounts.vault,
            created_at: now,
            bump: accounts.user_deposit_bump,
            ..record
        }
    } else {
        record
    };
    ManagedDeposit {
        shares: (record.shares + shares) as u64,
        total_deposited_usdc: (record.total_deposited_usdc + amount) as u64,
        updated_at: now,
        ..made_out
    }
}

/// Credits a deposit of USDC at the reported worth. A unit of USDC is worth a
/// unit of USD. On success as many shares as the event says are to be minted.
pub fn handler(
    vault: &mut ManagedVault,
    record: &mut ManagedDeposit,
    accounts: &DepositUsdc,
    amount: u64,
    now: i64,
) -> (r: Result<DepositUsdcEvent, VaultError>)
    requires
        request_refusal(*old(vault), *accounts, amount as int) is None ==> i64::MIN <= now - old(
            vault,
        ).last_tvl_update <= i64::MAX,
    ensures
        ({
            let shares = shares_for(
                amount as int,
                old(vault).total_shares as int,
                old(vault).tvl_usd as int,
            );
            match refusal(*old(vault), *old(record), *accounts, amount as int, now as int) {
                Some(e) => {
                    &&& r == Err::<DepositUsdcEvent, VaultError>(e)
                    &&& *final(vault) == *old(vault)
                    &&& *final(record) == *old(record)
                },
                None => {
                    &&& r == Ok::<DepositUsdcEvent, VaultError>(
                        (DepositUsdcEvent {
                            user: accounts.user,
                            amount,
                            shares_minted: shares as u64,
                            total_shares: (old(vault).total_shares + shares) as u64,
                            tvl_usd: (old(vault).tvl_usd + amount) as u64,
                        }),
                    )
                    &&& *final(vault) == vault_after(*old(vault), amount as int, shares)
                    &&& *final(record) == record_after(
                        *old(record),
                        *accounts,
                        amount as int,
                        shares,
                        now,
                    )
                },
            }
        }),
{
    if accounts.user_usdc_account.owner != accounts.user {
        return Err(VaultError::ConstraintRaw);
    }
    if accounts.user_usdc_account.mint != accounts.usdc_mint {
        return Err(VaultError::ConstraintRaw);
    }
    if accounts.user_share_account.owner != accounts.user {
        return Err(VaultError::ConstraintRaw);
    }
    if accounts.user_share_account.mint != accounts.share_mint {
        return Err(VaultError::ConstraintRaw);
    }
    if amount == 0 {
        return Err(VaultError::InvalidAmount);
    }
    if vault.is_paused {
        return Err(VaultError::VaultPaused);
    }
    if !(now - vault.last_tvl_update < MAX_TVL_AGE_SECS || vault.total_shares == 0) {
        return Err(VaultError::StaleTvl);
    }
    let shares: u64 = shares_for_deposit(amount, vault.total_shares, vault.tvl_usd);
    if shares == 0 {
        return Err(VaultError::InvalidAmount);
    }
    let treasury_usdc: u64 = match vault.treasury_usdc.checked_add(amount) {
        Some(v) => v,
        None => return Err(VaultError::MathOverflow),
    };
    let total_shares: u64 = match vault.total_shares.checked_add(shares) {
        Some(v) => v,
        None => return Err(VaultError::MathOverflow),
    };
    let tvl_usd: u64 = match vault.tvl_usd.checked_add(amount) {
        Some(v) => v,
        None => return Err(VaultError::MathOverflow),
    };
    let recorded_shares: u64 = match record.shares.checked_add(shares) {
        Some(v) => v,
        None => return Err(VaultError::MathOverflow),
    };
    let deposited: u64 = match record.total_deposited_usdc.checked_add(amount) {
        Some(v) => v,
        None => return Err(VaultError::MathOverflow),
    };
    vault.treasury_usdc = treasury_usdc;
    vault.total_shares = total_shares;
    vault.tvl_usd = tvl_usd;
    if record.created_at == 0 {
        record.user = accounts.user;
        record.vault = accounts.vault;
        record.created_at = now;
        record.bump = accounts.user_deposit_bump;
    }
    record.shares = recorded_shares;
    record.total_deposited_usdc = deposited;
    record.updated_at = now;
    Ok(
        DepositUsdcEvent {
            user: accounts.user,
            amount,
            shares_minted: shares,
            total_shares,
            tvl_usd,
        },
    )
}

} // verus!
