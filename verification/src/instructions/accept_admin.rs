//! Accepting to become the admin.

use crate::errors::VaultError;
use crate::events::AdminTransferAccepted;
use crate::pubkey::{no_key, Pubkey};
use crate::state::Vault;
use vstd::prelude::*;

verus! {

/// Accounts of an acceptance.
#[derive(Clone, Copy, Debug)]
pub struct AcceptAdmin {
    /// Who asks for it.
    pub new_admin: Pubkey,
}

/// Why an acceptance is refused, if it is.
pub open spec fn acceptance_refusal(vault: Vault, new_admin: Pubkey) -> Option<VaultError> {
    if vault.pending_admin == no_key() {
        Some(VaultError::NoPendingAdmin)
    } else if new_admin != vault.pending_admin {
        Some(VaultError::Unauthorized)
    } else {
        None
    }
}

/// The vault after an acceptance.
pub open spec fn accepted(vault: Vault) -> Vault {
    Vault { admin: vault.pending_admin, pending_admin: no_key(), ..vault }
}

/// Makes the proposed admin the admin.
pub fn handler(vault: &mut Vault, accounts: &AcceptAdmin) -> (r: Result<
    AdminTransferAccepted,
    VaultError,
>)
    ensures
        match acceptance_refusal(*old(vault), accounts.new_admin) {
            Some(e) => {
                &&& r == Err::<AdminTransferAccepted, VaultError>(e)
                &&& *final(vault) == *old(vault)
            },
            None => {
                &&& r == Ok::<AdminTransferAccepted, VaultError>(
                    (AdminTransferAccepted {
                        old_admin: old(vault).admin,
                        new_admin: accounts.new_admin,
                    }),
                )
                &&& *final(vault) == accepted(*old(vault))
            },
        },
{
    let none: Pubkey = Pubkey::default();
    if vault.pending_admin == none {
        return Err(VaultError::NoPendingAdmin);
    }
    if accounts.new_admin != vault.pending_admin {
        return Err(VaultError::Unauthorized);
    }
    let old_admin: Pubkey = vault.admin;
    vault.admin = accounts.new_admin;
    vault.pending_admin = none;
    Ok(AdminTransferAccepted { old_admin, new_admin: accounts.new_admin })
}

/// The admin changes only to whom the admin of that time has proposed, and only
/// when they accept: nobody else's acceptance goes through, and once accepted the
/// proposal is spent.
pub proof fn law_handover_takes_two_steps(vault: Vault, proposed: Pubkey, other: Pubkey)
    requires
        proposed != no_key(),
        other != proposed,
    ensures
        ({
            let waiting = Vault { pending_admin: proposed, ..vault };
            &&& acceptance_refusal(waiting, proposed) is None
            &&& acceptance_refusal(waiting, other) == Some(VaultError::Unauthorized)
            &&& waiting.admin == vault.admin
            &&& accepted(waiting).admin == proposed
            &&& acceptance_refusal(accepted(waiting), proposed) == Some(VaultError::NoPendingAdmin)
        }),
{
}

} // verus!
