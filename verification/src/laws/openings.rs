//! What opening a position and adding to it do.

use crate::accounts::{Balances, PositionAccounts};
use crate::errors::VaultError;
use crate::events::{LiquidityIncreased, PositionOpened};
use crate::instructions::delegation::Grants;
use crate::instructions::increase_liquidity;
use crate::instructions::increase_liquidity::IncreaseLiquidity;
use crate::instructions::open_position;
use crate::instructions::open_position::{OpenPosition, OpenRequest};
use crate::laws::{lesser, rest};
use crate::pubkey::Pubkey;
use crate::state::{validate_position_range, Vault};
use vstd::prelude::*;

verus! {

/// Opening a position conserves each token. The treasuries are recorded as they
/// stand after the pool's call, and what went out of each, and nothing else, is
/// recorded in the position: where the books matched before, treasury and
/// position together hold what the treasury held.
pub proof fn law_opening_conserves_each_token(
    vault: &mut Vault,
    position_mint: Pubkey,
    request: OpenRequest,
    liquidity: u128,
    before: Balances,
    after: Balances,
    r: PositionOpened,
)
    requires
        call_ensures(
            open_position::finish,
            (vault, &position_mint, &request, liquidity, before, after),
            r,
        ),
    ensures
        final(vault).treasury_token0 == after.token0,
        final(vault).treasury_token1 == after.token1,
        old(vault).treasury_token0 == before.token0 && after.token0 <= before.token0 ==> (
        final(vault).treasury_token0 + final(vault).position_token0
            == old(vault).treasury_token0),
        old(vault).treasury_token1 == before.token1 && after.token1 <= before.token1 ==> (
        final(vault).treasury_token1 + final(vault).position_token1
            == old(vault).treasury_token1),
        final(vault).position_token0 == rest(before.token0 as int, after.token0 as int),
        final(vault).position_token1 == rest(before.token1 as int, after.token1 as int),
{
}

/// Opening a position records its token, its range and the pool's liquidity, ends
/// the rebalance, and touches neither shares, fees, keys nor settings. The report
/// says what was recorded.
pub proof fn law_opening_records_the_position(
    vault: &mut Vault,
    position_mint: Pubkey,
    request: OpenRequest,
    liquidity: u128,
    before: Balances,
    after: Balances,
    r: PositionOpened,
)
    requires
        call_ensures(
            open_position::finish,
            (vault, &position_mint, &request, liquidity, before, after),
            r,
        ),
    ensures
        final(vault).has_active_position,
        final(vault).position_mint == position_mint,
        final(vault).position_tick_lower == request.tick_lower_index,
        final(vault).position_tick_upper == request.tick_upper_index,
        final(vault).position_liquidity == liquidity,
        !final(vault).is_rebalancing,
        final(vault).rebalance_started_at == 0,
        *final(vault) == (Vault {
            has_active_position: final(vault).has_active_position,
            position_mint: final(vault).position_mint,
            position_tick_lower: final(vault).position_tick_lower,
            position_tick_upper: final(vault).position_tick_upper,
            position_liquidity: final(vault).position_liquidity,
            position_token0: final(vault).position_token0,
            position_token1: final(vault).position_token1,
            treasury_token0: final(vault).treasury_token0,
            treasury_token1: final(vault).treasury_token1,
            is_rebalancing: final(vault).is_rebalancing,
            rebalance_started_at: final(vault).rebalance_started_at,
            ..*old(vault)
        }),
        r.position_mint == position_mint,
        r.pool_id == old(vault).pool_id,
        r.tick_lower == request.tick_lower_index,
        r.tick_upper == request.tick_upper_index,
        r.liquidity == liquidity,
        r.token0_used == final(vault).position_token0,
        r.token1_used == final(vault).position_token1,
{
}

/// Adding liquidity conserves each token: the treasuries are recorded as they
/// stand after the pool's call, and what went out of each is added to what the
/// position is recorded to hold of it, up to 64 bits. The liquidity is the pool's,
/// and nothing else changes.
pub proof fn law_increase_conserves_each_token(
    vault: &mut Vault,
    liquidity: u128,
    before: Balances,
    after: Balances,
    r: LiquidityIncreased,
)
    requires
        call_ensures(increase_liquidity::finish, (vault, liquidity, before, after), r),
    ensures
        final(vault).treasury_token0 == after.token0,
        final(vault).treasury_token1 == after.token1,
        old(vault).treasury_token0 == before.token0 && after.token0 <= before.token0
            && old(vault).position_token0 + before.token0 <= u64::MAX ==> (
        final(vault).treasury_token0 + final(vault).position_token0
            == old(vault).treasury_token0 + old(vault).position_token0),
        old(vault).treasury_token1 == before.token1 && after.token1 <= before.token1
            && old(vault).position_token1 + before.token1 <= u64::MAX ==> (
        final(vault).treasury_token1 + final(vault).position_token1
            == old(vault).treasury_token1 + old(vault).position_token1),
        r.token0_added == rest(before.token0 as int, after.token0 as int),
        r.token1_added == rest(before.token1 as int, after.token1 as int),
        final(vault).position_token0 == lesser(
            old(vault).position_token0 + r.token0_added,
            u64::MAX as int,
        ),
        final(vault).position_token1 == lesser(
            old(vault).position_token1 + r.token1_added,
            u64::MAX as int,
        ),
        r.new_liquidity == liquidity,
        final(vault).position_liquidity == liquidity,
        *final(vault) == (Vault {
            position_liquidity: final(vault).position_liquidity,
            position_token0: final(vault).position_token0,
            position_token1: final(vault).position_token1,
            treasury_token0: final(vault).treasury_token0,
            treasury_token1: final(vault).treasury_token1,
            ..*old(vault)
        }),
{
}

/// A range is accepted if and only if it runs upward, is between 8 and 20,000
/// tick spacings wide, and has the current tick strictly inside with a fifth of
/// the width on either side. One that does not run upward is answered as such.
pub proof fn law_range_is_wide_and_centred(
    tick_lower: i32,
    tick_upper: i32,
    tick_current: i32,
    tick_spacing: u16,
    r: Result<(), VaultError>,
)
    requires
        tick_upper - tick_lower <= i32::MAX,
        call_ensures(
            validate_position_range,
            (tick_lower, tick_upper, tick_current, tick_spacing as i32),
            r,
        ),
    ensures
        ({
            let width = tick_upper - tick_lower;
            r == (if width <= 0 {
                Err::<(), VaultError>(VaultError::InvalidTickRange)
            } else if 8 * tick_spacing <= width <= 20_000 * tick_spacing && tick_lower
                < tick_current < tick_upper && width <= 5 * (tick_current - tick_lower) && width
                <= 5 * (tick_upper - tick_current) {
                Ok::<(), VaultError>(())
            } else {
                Err::<(), VaultError>(VaultError::InvalidPositionRange)
            })
        }),
{
}

/// A position may be opened if and only if the operator or the admin asks, there
/// is none yet, the pool is the vault's, there is something to put in, the
/// slippage is at most five percent, the range is accepted, and each treasury
/// holds the most that may be spent of its token. Each refusal comes only where
/// its reason is true.
pub proof fn law_opening_is_refused_for_a_reason(
    vault: Vault,
    accounts: OpenPosition,
    request: OpenRequest,
    range: Result<(), VaultError>,
    r: Result<Grants, VaultError>,
)
    requires
        call_ensures(open_position::begin, (&vault, &accounts, &request), r),
        call_ensures(
            validate_position_range,
            (
                request.tick_lower_index,
                request.tick_upper_index,
                accounts.tick_current,
                accounts.tick_spacing as i32,
            ),
            range,
        ),
    ensures
        match r {
            Ok(grants) => {
                &&& grants.token0 && grants.token1
                &&& accounts.operator == vault.operator || accounts.operator == vault.admin
                &&& !vault.has_active_position
                &&& accounts.pool_state == vault.pool_id
                &&& request.liquidity > 0 || request.amount_0_max > 0
                &&& request.slippage_bps <= 500
                &&& range is Ok
                &&& request.amount_0_max <= accounts.token0_treasury.amount
                &&& request.amount_1_max <= accounts.token1_treasury.amount
            },
            Err(VaultError::Unauthorized) => accounts.operator != vault.operator
                && accounts.operator != vault.admin,
            Err(VaultError::PositionAlreadyExists) => vault.has_active_position,
            Err(VaultError::InvalidPriceFeed) => accounts.pool_state != vault.pool_id,
            Err(VaultError::InvalidTickRange) => request.tick_lower_index
                >= request.tick_upper_index,
            Err(VaultError::InvalidAmount) => request.liquidity == 0 && request.amount_0_max == 0,
            Err(VaultError::SlippageTooHigh) => request.slippage_bps > 500,
            Err(VaultError::InvalidPositionRange) => range is Err,
            Err(VaultError::InsufficientTreasuryBalance) => {
                ||| accounts.token0_treasury.amount < request.amount_0_max
                ||| accounts.token1_treasury.amount < request.amount_1_max
            },
            Err(_) => false,
        },
{
}

/// Liquidity may be added if and only if the admin asks, there is a position,
/// the accounts are that position's, there is something to put in, the slippage
/// is at most five percent, and each treasury holds the most that may be spent of
/// its token. A treasury approves exactly where something may be spent of it.
pub proof fn law_increase_is_refused_for_a_reason(
    vault: Vault,
    accounts: IncreaseLiquidity,
    liquidity: u128,
    amount_0_max: u64,
    amount_1_max: u64,
    slippage_bps: u16,
    r: Result<Grants, VaultError>,
)
    requires
        call_ensures(
            increase_liquidity::begin,
            (&vault, &accounts, liquidity, amount_0_max, amount_1_max, slippage_bps),
            r,
        ),
    ensures
        match r {
            Ok(grants) => {
                &&& grants.token0 <==> amount_0_max > 0
                &&& grants.token1 <==> amount_1_max > 0
                &&& accounts.admin == vault.admin
                &&& vault.has_active_position
                &&& accounts.position.position_nft_account.amount == 1
                &&& accounts.position.position_nft_account.mint == vault.position_mint
                &&& accounts.position.personal_position_pool_id == accounts.position.pool_state
                &&& liquidity > 0 || amount_0_max > 0
                &&& slippage_bps <= 500
                &&& amount_0_max <= accounts.token0_treasury.amount
                &&& amount_1_max <= accounts.token1_treasury.amount
            },
            Err(VaultError::Unauthorized) => accounts.admin != vault.admin,
            Err(VaultError::NoActivePosition) => !vault.has_active_position,
            Err(VaultError::ConstraintRaw) => {
                ||| accounts.position.position_nft_account.amount != 1
                ||| accounts.position.personal_position_pool_id != accounts.position.pool_state
            },
            Err(VaultError::InvalidPosition) => accounts.position.position_nft_account.mint
                != vault.position_mint,
            Err(VaultError::InvalidAmount) => liquidity == 0 && amount_0_max == 0,
            Err(VaultError::SlippageTooHigh) => slippage_bps > 500,
            Err(VaultError::InsufficientTreasuryBalance) => {
                ||| accounts.token0_treasury.amount < amount_0_max
                ||| accounts.token1_treasury.amount < amount_1_max
            },
            Err(_) => false,
        },
{
}

/// The accounts of a position are accepted if and only if they hold one token of
/// the position's mint and the pool program's record names the same pool.
pub proof fn law_position_accounts_belong_together(
    accounts: PositionAccounts,
    position_mint: Pubkey,
    r: Result<(), VaultError>,
)
    requires
        call_ensures(PositionAccounts::check, (&accounts, &position_mint), r),
    ensures
        match r {
            Ok(()) => {
                &&& accounts.position_nft_account.amount == 1
                &&& accounts.position_nft_account.mint == position_mint
                &&& accounts.personal_position_pool_id == accounts.pool_state
            },
            Err(VaultError::InvalidPosition) => accounts.position_nft_account.mint
                != position_mint,
            Err(e) => e == VaultError::ConstraintRaw && (accounts.position_nft_account.amount != 1
                || accounts.personal_position_pool_id != accounts.pool_state),
        },
{
}

} // verus!
