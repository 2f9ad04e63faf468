//! Reporting what a managed vault is worth.

use crate::errors::{outcome, VaultError};
use crate::managed::ManagedVault;
use crate::math::clamp_u64;
use crate::pubkey::Pubkey;
use vstd::prelude::*;

verus! {

/// Accounts of a report.
#[derive(Clone, Copy, Debug)]
pub struct UpdateTvl {
    /// Who reports.
    pub admin: Pubkey,
}

/// Why a report is refused, if it is. While there are shares and a worth, a
/// report may change it by at most a fifth.
pub open spec fn refusal(vault: ManagedVault, admin: Pubkey, tvl_usd: int, sol_price: int) -> Option<
    VaultError,
> {
    let before = vault.tvl_usd as int;
    if admin != vault.admin {
        Some(VaultError::Unauthorized)
    } else if sol_price == 0 {
        Some(VaultError::InvalidSolPrice)
    } else if vault.total_shares > 0 && before > 0 && !(before - before / 5 <= tvl_usd
        <= clamp_u64(before + before / 5)) {
        Some(VaultError::TvlChangeExceeded)
    } else {
        None
    }
}

/// Records a reported worth, and the price of SOL with it.
pub fn handler(
    vault: &mut ManagedVault,
    accounts: &UpdateTvl,
    tvl_usd: u64,
    sol_price: u64,
    now: i64,
) -> (r: Result<(), VaultError>)
    ensures
        r == outcome(refusal(*old(vault), accounts.admin, tvl_usd as int, sol_price as int)),
        *final(vault) == (match r {
            Ok(_) => ManagedVault {
                tvl_usd,
                sol_price_usd: sol_price,
                last_tvl_update: now,
                ..*old(vault)
            },
            Err(_) => *old(vault),
        }),
{
    if vault.admin != accounts.admin {
        return Err(VaultError::Unauthorized);
    }
    if sol_price == 0 {
        return Err(VaultError::InvalidSolPrice);
    }
    let before: u64 = vault.tvl_usd;
    if vault.total_shares > 0 && before > 0 {
        let change: u64 = before / 5;
        if !(tvl_usd <= before.saturating_add(change) && tvl_usd >= before.saturating_sub(change)) {
            return Err(VaultError::TvlChangeExceeded);
        }
    }
    vault.tvl_usd = tvl_usd;
    vault.sol_price_usd = sol_price;
    vault.last_tvl_update = now;
    Ok(())
}

/// While there are shares and a worth, a report that goes through changes the
/// worth by at most a fifth of it.
pub proof fn law_reports_move_by_a_fifth(
    vault: ManagedVault,
    admin: Pubkey,
    tvl_usd: int,
    sol_price: int,
)
    requires
        refusal(vault, admin, tvl_usd, sol_price) is None,
        vault.total_shares > 0,
        vault.tvl_usd > 0,
    ensures
        4 * vault.tvl_usd <= 5 * tvl_usd <= 6 * vault.tvl_usd,
{
}

} // verus!
