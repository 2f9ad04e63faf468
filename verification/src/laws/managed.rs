//! What the operations of a managed vault do.

use crate::errors::VaultError;
use crate::events::{DepositUsdcEvent, WithdrawToManageEvent};
use crate::instructions::deposit_usdc;
use crate::instructions::deposit_usdc::DepositUsdc;
use crate::instructions::return_from_manage;
use crate::instructions::update_tvl;
use crate::instructions::update_tvl::UpdateTvl;
use crate::instructions::withdraw_to_manage;
use crate::instructions::withdraw_to_manage::ManageAccounts;
use crate::managed::{ManagedDeposit, ManagedVault};
use crate::state::shares_for_deposit;
use vstd::prelude::*;

verus! {

/// A deposit of USDC adds it to the USDC treasury, to the reported worth and to
/// the record, and its shares to the outstanding and to the record. A fresh record
/// is made out to the depositor. Nothing else changes, and the report says so.
pub proof fn law_usdc_deposit_goes_to_usdc(
    vault: &mut ManagedVault,
    record: &mut ManagedDeposit,
    accounts: DepositUsdc,
    amount: u64,
    now: i64,
    shares: u64,
    r: Result<DepositUsdcEvent, VaultError>,
)
    requires
        call_ensures(deposit_usdc::handler, (vault, record, &accounts, amount, now), r),
        call_ensures(shares_for_deposit, (amount, vault.total_shares, vault.tvl_usd), shares),
    ensures
        match r {
            Ok(e) => {
                &&& final(vault).treasury_usdc == old(vault).treasury_usdc + amount
                &&& final(vault).tvl_usd == old(vault).tvl_usd + amount
                &&& final(vault).total_shares == old(vault).total_shares + shares
                &&& *final(vault) == (ManagedVault {
                    treasury_usdc: final(vault).treasury_usdc,
                    tvl_usd: final(vault).tvl_usd,
                    total_shares: final(vault).total_shares,
                    ..*old(vault)
                })
                &&& final(record).shares == old(record).shares + shares
                &&& final(record).total_deposited_usdc == old(record).total_deposited_usdc + amount
                &&& final(record).updated_at == now
                &&& old(record).created_at == 0 ==> {
                    &&& final(record).user == accounts.user
                    &&& final(record).vault == accounts.vault
                    &&& final(record).created_at == now
                    &&& final(record).bump == accounts.user_deposit_bump
                }
                &&& old(record).created_at != 0 ==> {
                    &&& final(record).user == old(record).user
                    &&& final(record).vault == old(record).vault
                    &&& final(record).created_at == old(record).created_at
                    &&& final(record).bump == old(record).bump
                }
                &&& e.user == accounts.user
                &&& e.amount == amount
                &&& e.shares_minted == shares
                &&& e.total_shares == final(vault).total_shares
                &&& e.tvl_usd == final(vault).tvl_usd
            },
            Err(_) => *final(vault) == *old(vault) && *final(record) == *old(record),
        },
{
    crate::state::lemma_shares_for_fits(amount, vault.total_shares, vault.tvl_usd);
}

/// A deposit of USDC goes through only where the accounts are the depositor's and
/// of the right mints, there is something to deposit, the vault is not paused, the
/// worth was reported less than ten minutes ago or there are no shares, and it
/// buys a share. Each refusal comes only where its reason is true.
pub proof fn law_usdc_deposit_is_refused_for_a_reason(
    vault: &mut ManagedVault,
    record: &mut ManagedDeposit,
    accounts: DepositUsdc,
    amount: u64,
    now: i64,
    shares: u64,
    r: Result<DepositUsdcEvent, VaultError>,
)
    requires
        call_ensures(deposit_usdc::handler, (vault, record, &accounts, amount, now), r),
        call_ensures(shares_for_deposit, (amount, vault.total_shares, vault.tvl_usd), shares),
    ensures
        ({
            let v = *old(vault);
            let own = {
                &&& accounts.user_usdc_account.owner == accounts.user
                &&& accounts.user_usdc_account.mint == accounts.usdc_mint
                &&& accounts.user_share_account.owner == accounts.user
                &&& accounts.user_share_account.mint == accounts.share_mint
            };
            let recent = now - v.last_tvl_update < 600 || v.total_shares == 0;
            let max = u64::MAX;
            let fits = {
                &&& v.treasury_usdc + amount <= max
                &&& v.tvl_usd + amount <= max
                &&& v.total_shares + shares <= max
                &&& old(record).shares + shares <= max
                &&& old(record).total_deposited_usdc + amount <= max
            };
            match r {
                Ok(_) => own && amount > 0 && !v.is_paused && recent && shares > 0 && fits,
                Err(VaultError::ConstraintRaw) => !own,
                Err(VaultError::InvalidAmount) => amount == 0 || shares == 0,
                Err(VaultError::VaultPaused) => v.is_paused,
                Err(VaultError::StaleTvl) => !recent,
                Err(VaultError::MathOverflow) => !fits,
                Err(_) => false,
            }
        }),
{
    crate::state::lemma_shares_for_fits(amount, vault.total_shares, vault.tvl_usd);
}

/// The admin, and nobody else, reports the worth, with a price of SOL. While there
/// are shares and a worth, the report may differ from it by a fifth, rounded down.
/// It takes effect with its time, and nothing else changes.
pub proof fn law_admin_reports_within_a_fifth(
    vault: &mut ManagedVault,
    accounts: UpdateTvl,
    tvl_usd: u64,
    sol_price: u64,
    now: i64,
    r: Result<(), VaultError>,
)
    requires
        call_ensures(update_tvl::handler, (vault, &accounts, tvl_usd, sol_price, now), r),
    ensures
        ({
            let before = old(vault).tvl_usd;
            let near = 5 * (tvl_usd - before) <= before && 5 * (before - tvl_usd) <= before;
            let free = old(vault).total_shares == 0 || before == 0;
            &&& r is Ok <==> accounts.admin == old(vault).admin && sol_price > 0 && (free || near)
            &&& r is Err ==> match r->Err_0 {
                VaultError::Unauthorized => accounts.admin != old(vault).admin,
                VaultError::InvalidSolPrice => sol_price == 0,
                VaultError::TvlChangeExceeded => !free && !near,
                _ => false,
            }
            &&& r is Err ==> *final(vault) == *old(vault)
            &&& r is Ok ==> final(vault).tvl_usd == tvl_usd
            &&& r is Ok ==> final(vault).sol_price_usd == sol_price
            &&& r is Ok ==> final(vault).last_tvl_update == now
            &&& *final(vault) == (ManagedVault {
                tvl_usd: final(vault).tvl_usd,
                sol_price_usd: final(vault).sol_price_usd,
                last_tvl_update: final(vault).last_tvl_update,
                ..*old(vault)
            })
        }),
{
}

/// Managed funds move if and only if the admin asks, both of the admin's accounts
/// are the admin's, and something is to move.
pub proof fn law_managed_funds_move_for_the_admin(
    accounts: ManageAccounts,
    vault: ManagedVault,
    sol_amount: u64,
    usdc_amount: u64,
    r: Result<(), VaultError>,
)
    requires
        call_ensures(ManageAccounts::check, (&accounts, &vault, sol_amount, usdc_amount), r),
    ensures
        match r {
            Ok(()) => {
                &&& accounts.admin == vault.admin
                &&& accounts.admin_wsol_account.owner == accounts.admin
                &&& accounts.admin_usdc_account.owner == accounts.admin
                &&& sol_amount > 0 || usdc_amount > 0
            },
            Err(VaultError::Unauthorized) => accounts.admin != vault.admin,
            Err(VaultError::ConstraintRaw) => accounts.admin_wsol_account.owner != accounts.admin
                || accounts.admin_usdc_account.owner != accounts.admin,
            Err(VaultError::InvalidAmount) => sol_amount == 0 && usdc_amount == 0,
            Err(_) => false,
        },
{
}

/// Taking funds out takes each amount off its own treasury and changes nothing
/// else. At most half of each treasury account leaves at once. A refused one
/// changes nothing, and its reason is true.
pub proof fn law_funds_leave_their_own_treasury(
    vault: &mut ManagedVault,
    accounts: ManageAccounts,
    sol_amount: u64,
    usdc_amount: u64,
    before: ManagedVault,
    checked: Result<(), VaultError>,
    r: Result<WithdrawToManageEvent, VaultError>,
)
    requires
        before == *vault,
        call_ensures(
            withdraw_to_manage::handler,
            (vault, &accounts, sol_amount, usdc_amount),
            r,
        ),
        call_ensures(
            ManageAccounts::check,
            (&accounts, &before, sol_amount, usdc_amount),
            checked,
        ),
    ensures
        match r {
            Ok(e) => {
                &&& checked is Ok
                &&& 2 * sol_amount <= accounts.sol_treasury.amount
                &&& 2 * usdc_amount <= accounts.usdc_treasury.amount
                &&& final(vault).treasury_sol + sol_amount == old(vault).treasury_sol
                &&& final(vault).treasury_usdc + usdc_amount == old(vault).treasury_usdc
                &&& *final(vault) == (ManagedVault {
                    treasury_sol: final(vault).treasury_sol,
                    treasury_usdc: final(vault).treasury_usdc,
                    ..*old(vault)
                })
                &&& e.admin == accounts.admin
                &&& e.sol_amount == sol_amount
                &&& e.usdc_amount == usdc_amount
            },
            Err(e) => {
                &&& *final(vault) == *old(vault)
                &&& match e {
                    VaultError::InsufficientTreasuryBalance => sol_amount
                        > accounts.sol_treasury.amount || usdc_amount
                        > accounts.usdc_treasury.amount,
                    VaultError::WithdrawalExceedsTreasury => 2 * sol_amount
                        > accounts.sol_treasury.amount || 2 * usdc_amount
                        > accounts.usdc_treasury.amount,
                    VaultError::MathOverflow => sol_amount > before.treasury_sol || usdc_amount
                        > before.treasury_usdc,
                    _ => checked == Err::<(), VaultError>(e),
                }
            },
        },
{
}

/// Bringing funds back adds each amount to its own treasury and changes nothing
/// else. The admin's accounts must hold what is brought.
pub proof fn law_funds_return_to_their_own_treasury(
    vault: &mut ManagedVault,
    accounts: ManageAccounts,
    sol_amount: u64,
    usdc_amount: u64,
    before: ManagedVault,
    checked: Result<(), VaultError>,
    r: Result<(), VaultError>,
)
    requires
        before == *vault,
        before.treasury_sol + sol_amount <= u64::MAX,
        before.treasury_usdc + usdc_amount <= u64::MAX,
        call_ensures(
            return_from_manage::handler,
            (vault, &accounts, sol_amount, usdc_amount),
            r,
        ),
        call_ensures(
            ManageAccounts::check,
            (&accounts, &before, sol_amount, usdc_amount),
            checked,
        ),
    ensures
        match r {
            Ok(()) => {
                &&& checked is Ok
                &&& sol_amount <= accounts.admin_wsol_account.amount
                &&& usdc_amount <= accounts.admin_usdc_account.amount
                &&& final(vault).treasury_sol == old(vault).treasury_sol + sol_amount
                &&& final(vault).treasury_usdc == old(vault).treasury_usdc + usdc_amount
                &&& *final(vault) == (ManagedVault {
                    treasury_sol: final(vault).treasury_sol,
                    treasury_usdc: final(vault).treasury_usdc,
                    ..*old(vault)
                })
            },
            Err(e) => {
                &&& *final(vault) == *old(vault)
                &&& checked == r || (e == VaultError::InsufficientTreasuryBalance && (sol_amount
                    > accounts.admin_wsol_account.amount || usdc_amount
                    > accounts.admin_usdc_account.amount))
            },
        },
{
}

} // verus!
