//! The rules that closing a position and taking liquidity out of it obey.

use crate::errors::VaultError;
use crate::instructions::withdraw::rebalance_blocks;
use crate::state::Vault;
use vstd::prelude::*;

verus! {

/// Checks that fees were collected in this slot, so that none are taken for
/// principal when liquidity leaves the position.
pub fn check_fees_collected(vault: &Vault, slot: u64) -> (r: Result<(), VaultError>)
    ensures
        r == (if vault.last_fee_collection_slot == slot {
            Ok::<(), VaultError>(())
        } else {
            Err::<(), VaultError>(VaultError::FeesNotCollected)
        }),
{
    if vault.last_fee_collection_slot != slot {
        return Err(VaultError::FeesNotCollected);
    }
    Ok(())
}

/// The vault while it rebalances.
pub open spec fn rebalancing_since(vault: Vault, now: i64) -> Vault {
    Vault { is_rebalancing: true, rebalance_started_at: now, ..vault }
}

/// Starts a rebalance: the position has been closed and the next is not open
/// yet.
pub fn start_rebalance(vault: &mut Vault, now: i64)
    ensures
        *final(vault) == rebalancing_since(*old(vault), now),
{
    vault.is_rebalancing = true;
    vault.rebalance_started_at = now;
}

/// A rebalance blocks withdrawals for one hour, its last second counted, and no
/// longer.
pub proof fn law_rebalance_blocks_for_an_hour(vault: Vault, started: i64, now: int)
    requires
        started > 0,
    ensures
        rebalance_blocks(rebalancing_since(vault, started), now) <==> now <= started + 3_600,
{
}

} // verus!
