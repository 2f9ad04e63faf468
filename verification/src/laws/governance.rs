//! What setting up a vault and changing its settings do.

use crate::errors::VaultError;
use crate::events::{
    AdminTransferAccepted, AdminTransferProposed, OperatorChanged, VaultInitialized,
    VaultPausedEvent,
};
use crate::instructions::accept_admin;
use crate::instructions::accept_admin::AcceptAdmin;
use crate::instructions::cancel_rebalance;
use crate::instructions::cancel_rebalance::CancelRebalance;
use crate::instructions::initialize;
use crate::instructions::initialize::Initialize;
use crate::instructions::rebalance::{check_fees_collected, start_rebalance};
use crate::instructions::set_operator;
use crate::instructions::set_operator::SetOperator;
use crate::instructions::set_paused;
use crate::instructions::set_paused::SetPaused;
use crate::instructions::transfer_admin;
use crate::instructions::transfer_admin::TransferAdmin;
use crate::pubkey::Pubkey;
use crate::state::{UserDeposit, Vault};
use vstd::prelude::*;

verus! {

/// `key` is the key of zeros, which nobody has.
pub open spec fn is_nobody(key: Pubkey) -> bool {
    forall|i: int| 0 <= i < 32 ==> #[trigger] key@[i] == 0
}

/// The operator and the admin, and nobody else, may run the vault.
pub proof fn law_operator_and_admin_operate(vault: Vault, key: Pubkey, r: bool)
    requires
        call_ensures(Vault::is_operator, (&vault, &key), r),
    ensures
        r <==> key == vault.operator || key == vault.admin,
{
}

/// The admin, and nobody else, pauses and resumes. It changes the one setting.
pub proof fn law_admin_pauses(
    vault: &mut Vault,
    accounts: SetPaused,
    paused: bool,
    r: Result<VaultPausedEvent, VaultError>,
)
    requires
        call_ensures(set_paused::handler, (vault, &accounts, paused), r),
    ensures
        r is Ok <==> accounts.admin == old(vault).admin,
        r is Ok ==> final(vault).is_paused == paused && r->Ok_0.paused == paused,
        r is Err ==> r->Err_0 == VaultError::Unauthorized && final(vault).is_paused
            == old(vault).is_paused,
        *final(vault) == (Vault { is_paused: final(vault).is_paused, ..*old(vault) }),
{
}

/// The admin, and nobody else, appoints the operator, who is somebody. It changes
/// the one setting.
pub proof fn law_admin_appoints_the_operator(
    vault: &mut Vault,
    accounts: SetOperator,
    new_operator: Pubkey,
    r: Result<OperatorChanged, VaultError>,
)
    requires
        call_ensures(set_operator::handler, (vault, &accounts, &new_operator), r),
    ensures
        r is Ok <==> accounts.admin == old(vault).admin && !is_nobody(new_operator),
        r is Ok ==> {
            &&& final(vault).operator == new_operator
            &&& r->Ok_0.new_operator == new_operator
            &&& r->Ok_0.old_operator == old(vault).operator
        },
        r is Err ==> final(vault).operator == old(vault).operator,
        accounts.admin != old(vault).admin <==> r == Err::<OperatorChanged, VaultError>(
            VaultError::Unauthorized,
        ),
        r is Err && accounts.admin == old(vault).admin ==> r->Err_0 == VaultError::InvalidArgument,
        *final(vault) == (Vault { operator: final(vault).operator, ..*old(vault) }),
{
    lemma_nobody(new_operator);
}

/// There is one key of zeros.
pub proof fn lemma_nobody(key: Pubkey)
    ensures
        is_nobody(key) <==> key == crate::pubkey::no_key(),
{
    let none = crate::pubkey::no_key();
    if is_nobody(key) {
        assert(key@ =~= none@);
        crate::pubkey::lemma_key_ext(key, none);
    }
}

/// The admin, and nobody else, proposes the next admin. A proposal alone changes
/// who is admin in nothing.
pub proof fn law_admin_proposes_the_next(
    vault: &mut Vault,
    accounts: TransferAdmin,
    new_admin: Pubkey,
    r: Result<AdminTransferProposed, VaultError>,
)
    requires
        call_ensures(transfer_admin::handler, (vault, &accounts, &new_admin), r),
    ensures
        r is Ok <==> accounts.admin == old(vault).admin,
        r is Ok ==> {
            &&& final(vault).pending_admin == new_admin
            &&& r->Ok_0.current_admin == old(vault).admin
            &&& r->Ok_0.proposed_admin == new_admin
        },
        r is Err ==> r->Err_0 == VaultError::Unauthorized && final(vault).pending_admin
            == old(vault).pending_admin,
        final(vault).admin == old(vault).admin,
        *final(vault) == (Vault { pending_admin: final(vault).pending_admin, ..*old(vault) }),
{
}

/// Whoever is proposed, and nobody else, becomes the admin by accepting, and the
/// proposal is spent. The operator stays.
pub proof fn law_the_proposed_becomes_admin(
    vault: &mut Vault,
    accounts: AcceptAdmin,
    r: Result<AdminTransferAccepted, VaultError>,
)
    requires
        call_ensures(accept_admin::handler, (vault, &accounts), r),
    ensures
        r is Ok <==> accounts.new_admin == old(vault).pending_admin && !is_nobody(
            old(vault).pending_admin,
        ),
        r is Ok ==> {
            &&& final(vault).admin == accounts.new_admin
            &&& is_nobody(final(vault).pending_admin)
            &&& r->Ok_0.old_admin == old(vault).admin
            &&& r->Ok_0.new_admin == accounts.new_admin
        },
        r is Err ==> *final(vault) == *old(vault),
        r is Err ==> r->Err_0 == (if is_nobody(old(vault).pending_admin) {
            VaultError::NoPendingAdmin
        } else {
            VaultError::Unauthorized
        }),
        *final(vault) == (Vault {
            admin: final(vault).admin,
            pending_admin: final(vault).pending_admin,
            ..*old(vault)
        }),
{
    lemma_nobody(vault.pending_admin);
    lemma_nobody(crate::pubkey::no_key());
}

/// The admin, and not the operator, calls off a rebalance, if one is on.
pub proof fn law_admin_calls_off_a_rebalance(
    vault: &mut Vault,
    accounts: CancelRebalance,
    r: Result<(), VaultError>,
)
    requires
        call_ensures(cancel_rebalance::handler, (vault, &accounts), r),
    ensures
        r is Ok <==> accounts.admin == old(vault).admin && old(vault).is_rebalancing,
        r is Ok ==> !final(vault).is_rebalancing && final(vault).rebalance_started_at == 0,
        r is Err ==> *final(vault) == *old(vault),
        r is Err ==> r->Err_0 == (if accounts.admin != old(vault).admin {
            VaultError::Unauthorized
        } else {
            VaultError::NotRebalancing
        }),
        *final(vault) == (Vault {
            is_rebalancing: final(vault).is_rebalancing,
            rebalance_started_at: final(vault).rebalance_started_at,
            ..*old(vault)
        }),
{
}

/// A rebalance is on from the time that it starts, and starting it changes nothing
/// else.
pub proof fn law_rebalance_starts_now(vault: &mut Vault, now: i64)
    requires
        call_ensures(start_rebalance, (vault, now), ()),
    ensures
        final(vault).is_rebalancing,
        final(vault).rebalance_started_at == now,
        *final(vault) == (Vault {
            is_rebalancing: final(vault).is_rebalancing,
            rebalance_started_at: final(vault).rebalance_started_at,
            ..*old(vault)
        }),
{
}

/// Liquidity leaves a position only in the slot in which its fees were collected.
pub proof fn law_fees_come_first(vault: Vault, slot: u64, r: Result<(), VaultError>)
    requires
        call_ensures(check_fees_collected, (&vault, slot), r),
    ensures
        r is Ok <==> vault.last_fee_collection_slot == slot,
        r is Err ==> r->Err_0 == VaultError::FeesNotCollected,
{
}

/// A vault is set up if and only if its admin and the protocol's wallet are
/// somebody, and its two mints differ, are the pool's in either order, and have 18
/// decimals at most. Then each of its fields is taken from the account of the same
/// name, the admin operates it, and there is nothing in it.
pub proof fn law_new_vault_takes_each_field_from_its_own(
    vault: &mut Vault,
    accounts: Initialize,
    admin: Pubkey,
    protocol_wallet: Pubkey,
    r: Result<VaultInitialized, VaultError>,
)
    requires
        call_ensures(initialize::handler, (vault, &accounts, &admin, &protocol_wallet), r),
    ensures
        ({
            let mint0 = accounts.token0_mint.key;
            let mint1 = accounts.token1_mint.key;
            let known = !is_nobody(admin) && !is_nobody(protocol_wallet);
            let fits = {
                &&& mint0 != mint1
                &&& mint0 == accounts.pool_mint_0 || mint0 == accounts.pool_mint_1
                &&& mint1 == accounts.pool_mint_0 || mint1 == accounts.pool_mint_1
                &&& accounts.token0_mint.decimals <= 18
                &&& accounts.token1_mint.decimals <= 18
            };
            &&& r is Ok <==> known && fits
            &&& r is Err ==> *final(vault) == *old(vault)
            &&& r is Err ==> r->Err_0 == (if !known {
                VaultError::Unauthorized
            } else {
                VaultError::InvalidMint
            })
        }),
        r is Ok ==> {
            &&& final(vault).admin == admin
            &&& final(vault).operator == admin
            &&& final(vault).protocol_wallet == protocol_wallet
            &&& final(vault).share_mint == accounts.share_mint
            &&& final(vault).pool_id == accounts.pool
            &&& final(vault).token0_mint == accounts.token0_mint.key
            &&& final(vault).token1_mint == accounts.token1_mint.key
            &&& final(vault).token0_decimals == accounts.token0_mint.decimals
            &&& final(vault).token1_decimals == accounts.token1_mint.decimals
            &&& final(vault).token0_treasury == accounts.token0_treasury
            &&& final(vault).token1_treasury == accounts.token1_treasury
            &&& final(vault).bump == accounts.bumps.vault
            &&& final(vault).share_mint_bump == accounts.bumps.share_mint
            &&& final(vault).token0_treasury_bump == accounts.bumps.token0_treasury
            &&& final(vault).token1_treasury_bump == accounts.bumps.token1_treasury
        },
        r is Ok ==> {
            &&& final(vault).total_shares == 0
            &&& final(vault).treasury_token0 == 0 && final(vault).treasury_token1 == 0
            &&& final(vault).accumulated_protocol_fees_token0 == 0
            &&& final(vault).accumulated_protocol_fees_token1 == 0
            &&& is_nobody(final(vault).position_mint)
            &&& !final(vault).has_active_position
            &&& final(vault).position_token0 == 0 && final(vault).position_token1 == 0
            &&& final(vault).position_liquidity == 0
            &&& final(vault).position_tick_lower == 0 && final(vault).position_tick_upper == 0
            &&& !final(vault).is_paused
            &&& !final(vault).is_rebalancing
            &&& final(vault).rebalance_started_at == 0
            &&& is_nobody(final(vault).pending_admin)
            &&& final(vault).swap_window_start == 0
            &&& final(vault).swap_volume_in_window == 0
            &&& final(vault).last_swap_at == old(vault).last_swap_at
            &&& final(vault).last_fee_collection_slot == old(vault).last_fee_collection_slot
        },
        r is Ok ==> {
            &&& r->Ok_0.admin == admin
            &&& r->Ok_0.protocol_wallet == protocol_wallet
            &&& r->Ok_0.share_mint == accounts.share_mint
            &&& r->Ok_0.token0_treasury == accounts.token0_treasury
            &&& r->Ok_0.token1_treasury == accounts.token1_treasury
            &&& r->Ok_0.pool_id == accounts.pool
        },
{
    lemma_nobody(admin);
    lemma_nobody(protocol_wallet);
    lemma_nobody(crate::pubkey::no_key());
}

/// A fresh vault account and a fresh deposit record are empty: every address in
/// them is nobody's, every number is zero and every flag is off.
pub proof fn law_fresh_accounts_are_empty(key: Pubkey, vault: Vault, record: UserDeposit)
    requires
        call_ensures(Pubkey::default, (), key),
        call_ensures(Vault::default, (), vault),
        call_ensures(UserDeposit::default, (), record),
    ensures
        is_nobody(key),
        vault == (Vault {
            admin: key,
            share_mint: key,
            pool_id: key,
            token0_mint: key,
            token1_mint: key,
            token0_treasury: key,
            token1_treasury: key,
            protocol_wallet: key,
            position_mint: key,
            pending_admin: key,
            operator: key,
            ..vault
        }),
        vault.total_shares == 0 && vault.treasury_token0 == 0 && vault.treasury_token1 == 0,
        vault.token0_decimals == 0 && vault.token1_decimals == 0,
        vault.bump == 0 && vault.token0_treasury_bump == 0 && vault.token1_treasury_bump == 0
            && vault.share_mint_bump == 0,
        !vault.has_active_position && !vault.is_paused && !vault.is_rebalancing,
        vault.position_token0 == 0 && vault.position_token1 == 0 && vault.position_liquidity == 0,
        vault.position_tick_lower == 0 && vault.position_tick_upper == 0,
        vault.accumulated_protocol_fees_token0 == 0 && vault.accumulated_protocol_fees_token1
            == 0,
        vault.rebalance_started_at == 0 && vault.swap_window_start == 0
            && vault.swap_volume_in_window == 0,
        vault.last_fee_collection_slot == 0 && vault.last_swap_at == 0,
        record.user == key && record.vault == key,
        record.shares == 0 && record.total_deposited_token0 == 0
            && record.total_deposited_token1 == 0 && record.total_withdrawn_value == 0,
        record.created_at == 0 && record.updated_at == 0 && record.bump == 0,
{
    lemma_nobody(key);
}

} // verus!
