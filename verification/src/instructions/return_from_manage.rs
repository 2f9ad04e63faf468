//! Bringing managed funds back.
//!
//! The worth is to be reported afterwards. In order: `handler`; move the tokens
//! in.

use crate::errors::{outcome, VaultError};
use crate::instructions::withdraw_to_manage;
use crate::instructions::withdraw_to_manage::ManageAccounts;
use crate::managed::ManagedVault;
use vstd::prelude::*;

verus! {

/// Accounts of a return.
pub type ReturnFromManage = ManageAccounts;

/// Why a return is refused, if it is.
pub open spec fn refusal(
    vault: ManagedVault,
    accounts: ReturnFromManage,
    sol_amount: int,
    usdc_amount: int,
) -> Option<VaultError> {
    if accounts.refusal(vault, sol_amount, usdc_amount) is Some {
        accounts.refusal(vault, sol_amount, usdc_amount)
    } else if sol_amount > accounts.admin_wsol_account.amount || usdc_amount
        > accounts.admin_usdc_account.amount {
        Some(VaultError::InsufficientTreasuryBalance)
    } else {
        None
    }
}

/// The vault after a return.
pub open spec fn vault_after(vault: ManagedVault, sol_amount: u64, usdc_amount: u64) -> ManagedVault {
    ManagedVault {
        treasury_sol: (vault.treasury_sol + sol_amount) as u64,
        treasury_usdc: (vault.treasury_usdc + usdc_amount) as u64,
        ..vault
    }
}

/// Records a return. On success the amounts are to be moved to the treasuries.
pub fn handler(
    vault: &mut ManagedVault,
    accounts: &ReturnFromManage,
    sol_amount: u64,
    usdc_amount: u64,
) -> (r: Result<(), VaultError>)
    requires
        refusal(*old(vault), *accounts, sol_amount as int, usdc_amount as int) is None ==> {
            &&& old(vault).treasury_sol + sol_amount <= u64::MAX
            &&& old(vault).treasury_usdc + usdc_amount <= u64::MAX
        },
    ensures
        r == outcome(refusal(*old(vault), *accounts, sol_amount as int, usdc_amount as int)),
        *final(vault) == (match r {
            Ok(_) => vault_after(*old(vault), sol_amount, usdc_amount),
            Err(_) => *old(vault),
        }),
{
    match accounts.check(vault, sol_amount, usdc_amount) {
        Err(e) => return Err(e),
        Ok(()) => {},
    }
    if sol_amount > accounts.admin_wsol_account.amount {
        return Err(VaultError::InsufficientTreasuryBalance);
    }
    if usdc_amount > accounts.admin_usdc_account.amount {
        return Err(VaultError::InsufficientTreasuryBalance);
    }
    vault.treasury_sol = vault.treasury_sol + sol_amount;
    vault.treasury_usdc = vault.treasury_usdc + usdc_amount;
    Ok(())
}

/// Bringing back what was taken out restores the vault.
pub proof fn law_return_undoes_withdrawal(vault: ManagedVault, sol_amount: u64, usdc_amount: u64)
    requires
        sol_amount <= vault.treasury_sol,
        usdc_amount <= vault.treasury_usdc,
    ensures
        vault_after(
            withdraw_to_manage::vault_after(vault, sol_amount, usdc_amount),
            sol_amount,
            usdc_amount,
        ) == vault,
{
}

} // verus!
