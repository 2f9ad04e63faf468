//! Taking funds out of a managed vault to manage them.
//!
//! The reported worth stays: the funds are still managed. In order: `handler`;
//! move the tokens out.

use crate::accounts::TokenAccount;
use crate::errors::{outcome, VaultError};
use crate::events::WithdrawToManageEvent;
use crate::managed::ManagedVault;
use crate::pubkey::Pubkey;
use vstd::prelude::*;

verus! {

/// Accounts of a movement of managed funds.
#[derive(Clone, Copy, Debug)]
pub struct ManageAccounts {
    /// Who asks for it.
    pub admin: Pubkey,
    /// The vault's wrapped SOL.
    pub sol_treasury: TokenAccount,
    /// The vault's USDC.
    pub usdc_treasury: TokenAccount,
    /// The admin's wrapped SOL.
    pub admin_wsol_account: TokenAccount,
    /// The admin's USDC.
    pub admin_usdc_account: TokenAccount,
}

/// Accounts of a withdrawal to manage.
pub type WithdrawToManage = ManageAccounts;

impl ManageAccounts {
    /// Why a movement of the given amounts is refused, if it is.
    pub open spec fn refusal(self, vault: ManagedVault, sol_amount: int, usdc_amount: int) -> Option<
        VaultError,
    > {
        if vault.admin != self.admin {
            Some(VaultError::Unauthorized)
        } else if self.admin_wsol_account.owner != self.admin {
            Some(VaultError::ConstraintRaw)
        } else if self.admin_usdc_account.owner != self.admin {
            Some(VaultError::ConstraintRaw)
        } else if sol_amount == 0 && usdc_amount == 0 {
            Some(VaultError::InvalidAmount)
        } else {
            None
        }
    }

    /// Checks who asks, whose the accounts are, and that something is to move.
    pub fn check(&self, vault: &ManagedVault, sol_amount: u64, usdc_amount: u64) -> (r: Result<
        (),
        VaultError,
    >)
        ensures
            r == outcome(
                self.refusal(*vault, sol_amount as int, usdc_amount as int),
            ),
    {
        if vault.admin != self.admin {
            return Err(VaultError::Unauthorized);
        }
        if self.admin_wsol_account.owner != self.admin {
            return Err(VaultError::ConstraintRaw);
        }
        if self.admin_usdc_account.owner != self.admin {
            return Err(VaultError::ConstraintRaw);
        }
        if sol_amount == 0 && usdc_amount == 0 {
            return Err(VaultError::InvalidAmount);
        }
        Ok(())
    }
}

/// Why a withdrawal is refused, if it is. At most half of each treasury leaves
/// at once.
pub open spec fn refusal(
    vault: ManagedVault,
    accounts: WithdrawToManage,
    sol_amount: int,
    usdc_amount: int,
) -> Option<VaultError> {
    if accounts.refusal(vault, sol_amount, usdc_amount) is Some {
        accounts.refusal(vault, sol_amount, usdc_amount)
    } else if sol_amount > accounts.sol_treasury.amount || usdc_amount
        > accounts.usdc_treasury.amount {
        Some(VaultError::InsufficientTreasuryBalance)
    } else if 2 * sol_amount > accounts.sol_treasury.amount || 2 * usdc_amount
        > accounts.usdc_treasury.amount {
        Some(VaultError::WithdrawalExceedsTreasury)
    } else if sol_amount > vault.treasury_sol || usdc_amount > vault.treasury_usdc {
        Some(VaultError::MathOverflow)
    } else {
        None
    }
}

/// The vault after a withdrawal.
pub open spec fn vault_after(vault: ManagedVault, sol_amount: u64, usdc_amount: u64) -> ManagedVault {
    ManagedVault {
        treasury_sol: (vault.treasury_sol - sol_amount) as u64,
        treasury_usdc: (vault.treasury_usdc - usdc_amount) as u64,
        ..vault
    }
}

/// Records a withdrawal to manage. On success the amounts are to be moved to the
/// admin.
pub fn handler(
    vault: &mut ManagedVault,
    accounts: &WithdrawToManage,
    sol_amount: u64,
    usdc_amount: u64,
) -> (r: Result<WithdrawToManageEvent, VaultError>)
    ensures
        match refusal(*old(vault), *accounts, sol_amount as int, usdc_amount as int) {
            Some(e) => {
                &&& r == Err::<WithdrawToManageEvent, VaultError>(e)
                &&& *final(vault) == *old(vault)
            },
            None => {
                &&& r == Ok::<WithdrawToManageEvent, VaultError>(
                    (WithdrawToManageEvent { admin: accounts.admin, sol_amount, usdc_amount }),
                )
                &&& *final(vault) == vault_after(*old(vault), sol_amount, usdc_amount)
            },
        },
{
    match accounts.check(vault, sol_amount, usdc_amount) {
        Err(e) => return Err(e),
        Ok(()) => {},
    }
    if sol_amount > accounts.sol_treasury.amount {
        return Err(VaultError::InsufficientTreasuryBalance);
    }
    if usdc_amount > accounts.usdc_treasury.amount {
        return Err(VaultError::InsufficientTreasuryBalance);
    }
    if sol_amount > accounts.sol_treasury.amount / 2 {
        return Err(VaultError::WithdrawalExceedsTreasury);
    }
    if usdc_amount > accounts.usdc_treasury.amount / 2 {
        return Err(VaultError::WithdrawalExceedsTreasury);
    }
    let treasury_sol: u64 = match vault.treasury_sol.checked_sub(sol_amount) {
        Some(v) => v,
        None => return Err(VaultError::MathOverflow),
    };
    let treasury_usdc: u64 = match vault.treasury_usdc.checked_sub(usdc_amount) {
        Some(v) => v,
        None => return Err(VaultError::MathOverflow),
    };
    vault.treasury_sol = treasury_sol;
    vault.treasury_usdc = treasury_usdc;
    Ok(WithdrawToManageEvent { admin: accounts.admin, sol_amount, usdc_amount })
}

} // verus!
