//! Pausing the vault.

use crate::errors::VaultError;
use crate::events::VaultPausedEvent;
use crate::pubkey::Pubkey;
use crate::state::Vault;
use vstd::prelude::*;

verus! {

/// Accounts of a pause.
#[derive(Clone, Copy, Debug)]
pub struct SetPaused {
    /// Who asks for it.
    pub admin: Pubkey,
}

/// Disables or enables deposits, and withdrawals from the treasury.
pub fn handler(vault: &mut Vault, accounts: &SetPaused, paused: bool) -> (r: Result<
    VaultPausedEvent,
    VaultError,
>)
    ensures
        if accounts.admin != old(vault).admin {
            &&& r == Err::<VaultPausedEvent, VaultError>(VaultError::Unauthorized)
            &&& *final(vault) == *old(vault)
        } else {
            &&& r == Ok::<VaultPausedEvent, VaultError>((VaultPausedEvent { paused }))
            &&& *final(vault) == (Vault { is_paused: paused, ..*old(vault) })
        },
{
    if vault.admin != accounts.admin {
        return Err(VaultError::Unauthorized);
    }
    vault.is_paused = paused;
    Ok(VaultPausedEvent { paused })
}

} // verus!
