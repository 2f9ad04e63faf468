//! Collecting the position's trading fees.
//!
//! One tenth goes to the protocol and is set aside. The rest stays in the
//! treasury, where it raises what each share is worth. In order: `begin`; collect
//! from the pool; `finish`.

use crate::accounts::{Balances, PositionAccounts};
use crate::constants::PROTOCOL_FEE_DENOMINATOR;
use crate::errors::{outcome, VaultError};
use crate::events::FeesCollected;
use crate::math::monus;
use crate::pubkey::Pubkey;
use crate::state::Vault;
use vstd::prelude::*;

verus! {

/// Accounts of a fee collection.
#[derive(Clone, Copy, Debug)]
pub struct CollectFees {
    /// Who asks for the collection.
    pub admin: Pubkey,
    /// What shows the position to be the vault's.
    pub position: PositionAccounts,
}

/// The protocol's part of `fees`, rounded down.
pub open spec fn protocol_part(fees: int) -> int {
    fees / PROTOCOL_FEE_DENOMINATOR as int
}

/// The protocol's fees after a balance rose from `before` to `after` by
/// collecting.
pub open spec fn fees_after(recorded: int, before: int, after: int) -> int {
    recorded + protocol_part(monus(after, before))
}

/// Why a collection is refused, if it is.
pub open spec fn refusal(vault: Vault, accounts: CollectFees) -> Option<VaultError> {
    if !vault.operates(accounts.admin) {
        Some(VaultError::Unauthorized)
    } else if !vault.has_active_position {
        Some(VaultError::NoActivePosition)
    } else {
        accounts.position.refusal(vault.position_mint)
    }
}

/// Checks that fees may be collected.
pub fn begin(vault: &Vault, accounts: &CollectFees) -> (r: Result<(), VaultError>)
    ensures
        r == outcome(refusal(*vault, *accounts)),
{
    if !vault.is_operator(&accounts.admin) {
        return Err(VaultError::Unauthorized);
    }
    if !vault.has_active_position {
        return Err(VaultError::NoActivePosition);
    }
    accounts.position.check(&vault.position_mint)
}

/// The protocol's fees after a collection.
pub open spec fn protocol_fees(vault: Vault, before: Balances, after: Balances) -> (int, int) {
    (
        fees_after(
            vault.accumulated_protocol_fees_token0 as int,
            before.token0 as int,
            after.token0 as int,
        ),
        fees_after(
            vault.accumulated_protocol_fees_token1 as int,
            before.token1 as int,
            after.token1 as int,
        ),
    )
}

/// The vault after a collection in `slot`. `before` and `after` are the
/// treasuries before and after it.
pub open spec fn vault_after(vault: Vault, before: Balances, after: Balances, slot: u64) -> Vault {
    Vault {
        accumulated_protocol_fees_token0: protocol_fees(vault, before, after).0 as u64,
        accumulated_protocol_fees_token1: protocol_fees(vault, before, after).1 as u64,
        treasury_token0: after.token0,
        treasury_token1: after.token1,
        last_fee_collection_slot: slot,
        ..vault
    }
}

/// Records fees that have been collected, and sets the protocol's part aside.
pub fn finish(vault: &mut Vault, before: Balances, after: Balances, slot: u64) -> (r: Result<
    FeesCollected,
    VaultError,
>)
    ensures
        ({
            let fees0 = monus(after.token0 as int, before.token0 as int);
            let fees1 = monus(after.token1 as int, before.token1 as int);
            let protocol = protocol_fees(*old(vault), before, after);
            if protocol.0 > u64::MAX || protocol.1 > u64::MAX {
                &&& r == Err::<FeesCollected, VaultError>(VaultError::MathOverflow)
                &&& *final(vault) == *old(vault)
            } else {
                &&& r == Ok::<FeesCollected, VaultError>(
                    (FeesCollected {
                        total_token0_fees: fees0 as u64,
                        total_token1_fees: fees1 as u64,
                        protocol_token0_fees: protocol_part(fees0) as u64,
                        protocol_token1_fees: protocol_part(fees1) as u64,
                    }),
                )
                &&& *final(vault) == vault_after(*old(vault), before, after, slot)
            }
        }),
{
    let total_token0_fees: u64 = after.token0.saturating_sub(before.token0);
    let total_token1_fees: u64 = after.token1.saturating_sub(before.token1);
    let protocol_token0_fees: u64 = total_token0_fees / PROTOCOL_FEE_DENOMINATOR;
    let protocol_token1_fees: u64 = total_token1_fees / PROTOCOL_FEE_DENOMINATOR;
    let recorded0: u64 = match vault.accumulated_protocol_fees_token0.checked_add(
        protocol_token0_fees,
    ) {
        Some(v) => v,
        None => return Err(VaultError::MathOverflow),
    };
    let recorded1: u64 = match vault.accumulated_protocol_fees_token1.checked_add(
        protocol_token1_fees,
    ) {
        Some(v) => v,
        None => return Err(VaultError::MathOverflow),
    };
    vault.accumulated_protocol_fees_token0 = recorded0;
    vault.accumulated_protocol_fees_token1 = recorded1;
    vault.treasury_token0 = after.token0;
    vault.treasury_token1 = after.token1;
    vault.last_fee_collection_slot = slot;
    Ok(
        FeesCollected {
            total_token0_fees,
            total_token1_fees,
            protocol_token0_fees,
            protocol_token1_fees,
        },
    )
}

/// The protocol gets a tenth of the fees, rounded down, and the holders get the
/// rest: what is theirs in the treasury rises by nine tenths, rounded up.
pub proof fn law_fees_are_split_one_to_nine(
    vault: Vault,
    before: Balances,
    after: Balances,
    slot: u64,
)
    requires
        vault.covers_fees(),
        vault.treasury_token0 == before.token0 <= after.token0,
        vault.treasury_token1 == before.token1 <= after.token1,
    ensures
        ({
            let v = vault_after(vault, before, after, slot);
            let fees0 = after.token0 - before.token0;
            let fees1 = after.token1 - before.token1;
            &&& v.accumulated_protocol_fees_token0 == vault.accumulated_protocol_fees_token0 + fees0
                / 10
            &&& v.user_token0() - vault.user_token0() == fees0 - fees0 / 10
            &&& 10 * (v.user_token0() - vault.user_token0()) >= 9 * fees0
            &&& v.accumulated_protocol_fees_token1 == vault.accumulated_protocol_fees_token1 + fees1
                / 10
            &&& v.user_token1() - vault.user_token1() == fees1 - fees1 / 10
            &&& 10 * (v.user_token1() - vault.user_token1()) >= 9 * fees1
            &&& v.covers_fees()
        }),
{
}

} // verus!
