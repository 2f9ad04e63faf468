//! Calling off a stuck rebalance.

use crate::errors::VaultError;
use crate::pubkey::Pubkey;
use crate::state::Vault;
use vstd::prelude::*;

verus! {

/// Accounts of a cancellation.
#[derive(Clone, Copy, Debug)]
pub struct CancelRebalance {
    /// Who asks for it.
    pub admin: Pubkey,
}

/// Calls off a rebalance that is stuck, so that holders can withdraw. The
/// operator may not.
pub fn handler(vault: &mut Vault, accounts: &CancelRebalance) -> (r: Result<(), VaultError>)
    ensures
        if accounts.admin != old(vault).admin {
            &&& r == Err::<(), VaultError>(VaultError::Unauthorized)
            &&& *final(vault) == *old(vault)
        } else if !old(vault).is_rebalancing {
            &&& r == Err::<(), VaultError>(VaultError::NotRebalancing)
            &&& *final(vault) == *old(vault)
        } else {
            &&& r == Ok::<(), VaultError>(())
            &&& *final(vault) == (Vault {
                is_rebalancing: false,
                rebalance_started_at: 0,
                ..*old(vault)
            })
        },
{
    if vault.admin != accounts.admin {
        return Err(VaultError::Unauthorized);
    }
    if !vault.is_rebalancing {
        return Err(VaultError::NotRebalancing);
    }
    vault.is_rebalancing = false;
    vault.rebalance_started_at = 0;
    Ok(())
}

} // verus!
