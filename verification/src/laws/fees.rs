//! What collecting and paying fees do, and what is recorded of a position.

use crate::accounts::{
    check_position_account, Balances, PersonalPosition, PoolPrice, PositionAccounts,
};
use crate::errors::VaultError;
use crate::events::{FeesCollected, ProtocolFeeExtracted, RewardsExtracted};
use crate::instructions::collect_fees;
use crate::instructions::collect_fees::CollectFees;
use crate::instructions::extract_protocol_fee;
use crate::instructions::extract_protocol_fee::ExtractProtocolFee;
use crate::instructions::extract_rewards;
use crate::instructions::extract_rewards::ExtractRewards;
use crate::instructions::sync_position_value;
use crate::instructions::sync_position_value::{check_pool, sync_handler, SyncPositionValue};
use crate::laws::{is_quotient, rest};
use crate::liquidity::calculate_position_amounts;
use crate::pubkey::Pubkey;
use crate::state::Vault;
use vstd::prelude::*;

verus! {

/// Fees may be collected if and only if the operator or the admin asks, there is
/// a position, and its accounts are accepted.
pub proof fn law_collection_is_refused_for_a_reason(
    vault: Vault,
    accounts: CollectFees,
    checked: Result<(), VaultError>,
    r: Result<(), VaultError>,
)
    requires
        call_ensures(collect_fees::begin, (&vault, &accounts), r),
        call_ensures(
            PositionAccounts::check,
            (&accounts.position, &vault.position_mint),
            checked,
        ),
    ensures
        ({
            let permitted = accounts.admin == vault.operator || accounts.admin == vault.admin;
            match r {
                Ok(()) => permitted && vault.has_active_position && checked is Ok,
                Err(VaultError::Unauthorized) => !permitted,
                Err(VaultError::NoActivePosition) => permitted && !vault.has_active_position,
                Err(_) => permitted && vault.has_active_position && checked == r,
            }
        }),
{
}

/// Of what collecting brought into each treasury, a tenth, rounded down, is set
/// aside as the protocol's fees of that token, and the rest stays with the
/// holders. The treasuries are recorded as they stand after it, with the slot, and
/// nothing else changes. The report says what was collected and set aside of each
/// token. Only fees that do not fit in 64 bits are refused.
pub proof fn law_collection_sets_a_tenth_of_each_token_aside(
    vault: &mut Vault,
    before: Balances,
    after: Balances,
    slot: u64,
    r: Result<FeesCollected, VaultError>,
)
    requires
        call_ensures(collect_fees::finish, (vault, before, after, slot), r),
    ensures
        ({
            let collected0 = rest(after.token0 as int, before.token0 as int);
            let collected1 = rest(after.token1 as int, before.token1 as int);
            match r {
                Ok(e) => {
                    &&& e.total_token0_fees == collected0
                    &&& e.total_token1_fees == collected1
                    &&& is_quotient(e.protocol_token0_fees as int, collected0, 10)
                    &&& is_quotient(e.protocol_token1_fees as int, collected1, 10)
                    &&& final(vault).accumulated_protocol_fees_token0
                        == old(vault).accumulated_protocol_fees_token0 + e.protocol_token0_fees
                    &&& final(vault).accumulated_protocol_fees_token1
                        == old(vault).accumulated_protocol_fees_token1 + e.protocol_token1_fees
                    &&& final(vault).treasury_token0 == after.token0
                    &&& final(vault).treasury_token1 == after.token1
                    &&& final(vault).last_fee_collection_slot == slot
                    &&& *final(vault) == (Vault {
                        accumulated_protocol_fees_token0: final(
                            vault
                        ).accumulated_protocol_fees_token0,
                        accumulated_protocol_fees_token1: final(
                            vault
                        ).accumulated_protocol_fees_token1,
                        treasury_token0: final(vault).treasury_token0,
                        treasury_token1: final(vault).treasury_token1,
                        last_fee_collection_slot: final(vault).last_fee_collection_slot,
                        ..*old(vault)
                    })
                },
                Err(e) => {
                    &&& e == VaultError::MathOverflow
                    &&& *final(vault) == *old(vault)
                    &&& 10 * (u64::MAX - old(vault).accumulated_protocol_fees_token0) < collected0
                        || 10 * (u64::MAX - old(vault).accumulated_protocol_fees_token1)
                        < collected1
                },
            }
        }),
{
}

/// The protocol's fees may be paid out if and only if the admin asks, both
/// receiving accounts are the protocol wallet's and of the mints of their
/// treasuries, and there are fees. Then all fees of each token are to be paid.
pub proof fn law_fee_payout_is_all_fees_to_the_protocol(
    vault: Vault,
    accounts: ExtractProtocolFee,
    r: Result<Balances, VaultError>,
)
    requires
        call_ensures(extract_protocol_fee::begin, (&vault, &accounts), r),
    ensures
        match r {
            Ok(paid) => {
                &&& accounts.admin == vault.admin
                &&& accounts.protocol_token0_account.owner == vault.protocol_wallet
                &&& accounts.protocol_token1_account.owner == vault.protocol_wallet
                &&& accounts.protocol_token0_account.mint == accounts.token0_treasury.mint
                &&& accounts.protocol_token1_account.mint == accounts.token1_treasury.mint
                &&& paid.token0 == vault.accumulated_protocol_fees_token0
                &&& paid.token1 == vault.accumulated_protocol_fees_token1
                &&& paid.token0 > 0 || paid.token1 > 0
            },
            Err(VaultError::Unauthorized) => {
                ||| accounts.admin != vault.admin
                ||| accounts.protocol_token0_account.owner != vault.protocol_wallet
                ||| accounts.protocol_token1_account.owner != vault.protocol_wallet
            },
            Err(VaultError::InvalidMint) => {
                ||| accounts.protocol_token0_account.mint != accounts.token0_treasury.mint
                ||| accounts.protocol_token1_account.mint != accounts.token1_treasury.mint
            },
            Err(VaultError::NoFeesToExtract) => vault.accumulated_protocol_fees_token0 == 0
                && vault.accumulated_protocol_fees_token1 == 0,
            Err(_) => false,
        },
        accounts.admin != vault.admin ==> r == Err::<Balances, VaultError>(
            VaultError::Unauthorized,
        ),
{
}

/// Recording a fee payout leaves no fees, takes the treasuries as they stand after
/// it, and changes nothing else. The report says how much of each token the
/// protocol's wallet got.
pub proof fn law_fee_payout_is_recorded(
    vault: &mut Vault,
    treasury: Balances,
    r: ProtocolFeeExtracted,
)
    requires
        call_ensures(extract_protocol_fee::finish, (vault, treasury), r),
    ensures
        final(vault).accumulated_protocol_fees_token0 == 0,
        final(vault).accumulated_protocol_fees_token1 == 0,
        final(vault).treasury_token0 == treasury.token0,
        final(vault).treasury_token1 == treasury.token1,
        *final(vault) == (Vault {
            accumulated_protocol_fees_token0: final(vault).accumulated_protocol_fees_token0,
            accumulated_protocol_fees_token1: final(vault).accumulated_protocol_fees_token1,
            treasury_token0: final(vault).treasury_token0,
            treasury_token1: final(vault).treasury_token1,
            ..*old(vault)
        }),
        r.token0_amount == old(vault).accumulated_protocol_fees_token0,
        r.token1_amount == old(vault).accumulated_protocol_fees_token1,
        r.protocol_wallet == old(vault).protocol_wallet,
{
}

/// Rewards may be paid out if and only if the admin asks, the reward is neither of
/// the vault's tokens, it lies in an account of the vault, it goes to one of the
/// protocol's wallet, and there is some. Then all of it is to be paid.
pub proof fn law_reward_payout_is_all_rewards_to_the_protocol(
    vault: Vault,
    accounts: ExtractRewards,
    r: Result<RewardsExtracted, VaultError>,
)
    requires
        call_ensures(extract_rewards::handler, (&vault, &accounts), r),
    ensures
        match r {
            Ok(e) => {
                &&& accounts.admin == vault.admin
                &&& accounts.reward_mint != vault.token0_mint
                &&& accounts.reward_mint != vault.token1_mint
                &&& accounts.vault_reward_account.owner == accounts.vault
                &&& accounts.vault_reward_account.mint == accounts.reward_mint
                &&& accounts.protocol_reward_account.owner == vault.protocol_wallet
                &&& accounts.protocol_reward_account.mint == accounts.reward_mint
                &&& e.reward_mint == accounts.reward_mint
                &&& e.amount == accounts.vault_reward_account.amount
                &&& e.amount > 0
                &&& e.protocol_wallet == vault.protocol_wallet
            },
            Err(VaultError::Unauthorized) => {
                ||| accounts.admin != vault.admin
                ||| accounts.vault_reward_account.owner != accounts.vault
                ||| accounts.protocol_reward_account.owner != vault.protocol_wallet
            },
            Err(VaultError::InvalidMint) => {
                ||| accounts.reward_mint == vault.token0_mint
                ||| accounts.reward_mint == vault.token1_mint
                ||| accounts.vault_reward_account.mint != accounts.reward_mint
                ||| accounts.protocol_reward_account.mint != accounts.reward_mint
            },
            Err(VaultError::NoRewardsToExtract) => accounts.vault_reward_account.amount == 0,
            Err(_) => false,
        },
        accounts.admin != vault.admin ==> r == Err::<RewardsExtracted, VaultError>(
            VaultError::Unauthorized,
        ),
{
}

/// A position may be recorded if and only if there is one, the pool is the
/// vault's, and the account handed in is the pool program's record of it. Anyone
/// may ask.
pub proof fn law_sync_is_refused_for_a_reason(
    vault: Vault,
    accounts: SyncPositionValue,
    clmm_program: Pubkey,
    checked: Result<(), VaultError>,
    located: Result<(), VaultError>,
    r: Result<(), VaultError>,
)
    requires
        call_ensures(sync_position_value::begin, (&vault, &accounts, &clmm_program), r),
        call_ensures(check_pool, (&vault, &accounts.pool_state), checked),
        call_ensures(
            check_position_account,
            (&accounts.personal_position, &vault.position_mint, &clmm_program),
            located,
        ),
    ensures
        r is Ok <==> vault.has_active_position && accounts.pool_state == vault.pool_id
            && located is Ok,
        r is Err ==> match r->Err_0 {
            VaultError::NoActivePosition => !vault.has_active_position,
            VaultError::InvalidPriceFeed => accounts.pool_state != vault.pool_id,
            _ => located == r,
        },
        checked is Ok <==> vault.has_active_position && accounts.pool_state == vault.pool_id,
        checked is Err ==> r == checked,
{
}

/// Recording a position takes over its liquidity and what it holds at the pool's
/// price, token0 as token0 and token1 as token1, and changes nothing else. A
/// position without liquidity holds nothing.
pub proof fn law_sync_records_each_token(
    vault: &mut Vault,
    position: PersonalPosition,
    pool: PoolPrice,
    amounts: (u64, u64),
)
    requires
        call_ensures(sync_handler, (vault, &position, &pool), ()),
        call_ensures(
            calculate_position_amounts,
            (
                pool.sqrt_price_x64,
                pool.tick_current,
                position.tick_lower_index,
                position.tick_upper_index,
                position.liquidity,
                pool.token_mint_0 == vault.token0_mint,
            ),
            amounts,
        ),
    ensures
        final(vault).position_liquidity == position.liquidity,
        position.liquidity > 0 ==> final(vault).position_token0 == amounts.0,
        position.liquidity > 0 ==> final(vault).position_token1 == amounts.1,
        position.liquidity == 0 ==> final(vault).position_token0 == 0,
        position.liquidity == 0 ==> final(vault).position_token1 == 0,
        *final(vault) == (Vault {
            position_liquidity: final(vault).position_liquidity,
            position_token0: final(vault).position_token0,
            position_token1: final(vault).position_token1,
            ..*old(vault)
        }),
{
}

} // verus!
