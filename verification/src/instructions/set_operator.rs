//! Setting the operator.

use crate::errors::VaultError;
use crate::events::OperatorChanged;
use crate::pubkey::{no_key, Pubkey};
use crate::state::Vault;
use vstd::prelude::*;

verus! {

/// Accounts of a change of operator.
#[derive(Clone, Copy, Debug)]
pub struct SetOperator {
    /// Who asks for it.
    pub admin: Pubkey,
}

/// Sets the key for automated operations.
pub fn handler(vault: &mut Vault, accounts: &SetOperator, new_operator: &Pubkey) -> (r: Result<
    OperatorChanged,
    VaultError,
>)
    ensures
        if accounts.admin != old(vault).admin {
            &&& r == Err::<OperatorChanged, VaultError>(VaultError::Unauthorized)
            &&& *final(vault) == *old(vault)
        } else if *new_operator == no_key() {
            &&& r == Err::<OperatorChanged, VaultError>(VaultError::InvalidArgument)
            &&& *final(vault) == *old(vault)
        } else {
            &&& r == Ok::<OperatorChanged, VaultError>(
                (OperatorChanged {
                    old_operator: old(vault).operator,
                    new_operator: *new_operator,
                }),
            )
            &&& *final(vault) == (Vault { operator: *new_operator, ..*old(vault) })
        },
{
    if vault.admin != accounts.admin {
        return Err(VaultError::Unauthorized);
    }
    if *new_operator == Pubkey::default() {
        return Err(VaultError::InvalidArgument);
    }
    let old_operator: Pubkey = vault.operator;
    vault.operator = *new_operator;
    Ok(OperatorChanged { old_operator, new_operator: *new_operator })
}

} // verus!
