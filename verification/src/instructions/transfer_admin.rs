//! Proposing a new admin.

use crate::errors::VaultError;
use crate::events::AdminTransferProposed;
use crate::pubkey::Pubkey;
use crate::state::Vault;
use vstd::prelude::*;

verus! {

/// Accounts of a proposal.
#[derive(Clone, Copy, Debug)]
pub struct TransferAdmin {
    /// Who asks for it.
    pub admin: Pubkey,
}

/// Proposes a new admin, who has to accept.
pub fn handler(vault: &mut Vault, accounts: &TransferAdmin, new_admin: &Pubkey) -> (r: Result<
    AdminTransferProposed,
    VaultError,
>)
    ensures
        if accounts.admin != old(vault).admin {
            &&& r == Err::<AdminTransferProposed, VaultError>(VaultError::Unauthorized)
            &&& *final(vault) == *old(vault)
        } else {
            &&& r == Ok::<AdminTransferProposed, VaultError>(
                (AdminTransferProposed {
                    current_admin: old(vault).admin,
                    proposed_admin: *new_admin,
                }),
            )
            &&& *final(vault) == (Vault { pending_admin: *new_admin, ..*old(vault) })
        },
{
    if vault.admin != accounts.admin {
        return Err(VaultError::Unauthorized);
    }
    vault.pending_admin = *new_admin;
    Ok(AdminTransferProposed { current_admin: vault.admin, proposed_admin: *new_admin })
}

} // verus!
