//! On which inputs the operations with a precondition may be called.

use crate::accounts::{PersonalPosition, PoolPrice};
use crate::errors::VaultError;
use crate::instructions::deposit;
use crate::instructions::deposit::{
    can_quote, can_quote_price, read_pool, DepositAccounts, DepositQuote, DepositRequest,
};
use crate::instructions::open_position;
use crate::instructions::open_position::{OpenPosition, OpenRequest};
use crate::instructions::swap_in_treasury;
use crate::instructions::swap_in_treasury::{SwapDirection, SwapInTreasury};
use crate::instructions::withdraw_from_position;
use crate::instructions::withdraw_from_position::WithdrawFromPosition;
use crate::instructions::{deposit_token0, deposit_token1};
use crate::liquidity::can_calculate_position_amounts;
use crate::oracle::{can_check_feed, oracle_window_fits};
use crate::price::can_price;
use crate::pubkey::Pubkey;
use crate::state::{UserDeposit, Vault};
use vstd::prelude::*;

verus! {

/// A deposit may be priced where its price may be asked for and its oracle may be
/// asked, and wherever the answer is that it may.
pub proof fn law_deposit_can_be_priced(
    vault: Vault,
    observation_owner: Pubkey,
    clmm_program: Pubkey,
    pool_data: &[u8],
    obs_data: &[u8],
    pool: Option<PoolPrice>,
    scaled: bool,
    guarded: bool,
    r: bool,
)
    requires
        call_ensures(
            can_quote_price,
            (&vault, &observation_owner, &clmm_program, pool_data, obs_data),
            r,
        ),
        call_ensures(read_pool, (pool_data,), pool),
        pool is Some ==> call_ensures(
            can_price,
            (pool->0.sqrt_price_x64, vault.token0_decimals),
            scaled,
        ),
        call_ensures(
            can_check_feed,
            (&vault.pool_id, &observation_owner, &clmm_program, obs_data),
            guarded,
        ),
    ensures
        pool is None ==> r,
        scaled && guarded ==> r,
        pool is Some && !scaled ==> !r,
        r ==> call_requires(
            deposit::quote_price,
            (&vault, &observation_owner, &clmm_program, pool_data, obs_data),
        ),
{
}

/// A deposit may be quoted where it is refused before it is priced, where it may be
/// priced, and wherever the answer is that it may.
pub proof fn law_deposit_can_be_quoted(
    vault: Vault,
    accounts: DepositAccounts,
    mint: Pubkey,
    request: DepositRequest,
    clmm_program: Pubkey,
    pool_data: &[u8],
    obs_data: &[u8],
    checked: Result<(), VaultError>,
    priced: bool,
    r: bool,
)
    requires
        call_ensures(
            can_quote,
            (&vault, &accounts, &mint, &request, &clmm_program, pool_data, obs_data),
            r,
        ),
        call_ensures(
            deposit::check_request,
            (&vault, &accounts, &mint, &request, &clmm_program),
            checked,
        ),
        call_ensures(
            can_quote_price,
            (&vault, &accounts.observation_owner, &clmm_program, pool_data, obs_data),
            priced,
        ),
    ensures
        r <==> checked is Err || priced,
        r ==> call_requires(
            deposit::quote,
            (&vault, &accounts, &mint, &request, &clmm_program, pool_data, obs_data),
        ),
        r && mint == vault.token0_mint ==> call_requires(
            deposit_token0::begin,
            (&vault, &accounts, &request, &clmm_program, pool_data, obs_data),
        ),
        r && mint == vault.token1_mint ==> call_requires(
            deposit_token1::begin,
            (&vault, &accounts, &request, &clmm_program, pool_data, obs_data),
        ),
{
}

/// A deposit may be valued with up to 38 decimals, where the position is not to be
/// read or its amounts can be worked out.
pub proof fn law_deposit_can_be_valued(
    vault: Vault,
    quote: DepositQuote,
    position: Option<PersonalPosition>,
)
    requires
        vault.token0_decimals <= 38,
        position is Some ==> call_ensures(
            can_calculate_position_amounts,
            (
                quote.pool.sqrt_price_x64,
                quote.pool.tick_current,
                position->0.tick_lower_index,
                position->0.tick_upper_index,
                position->0.liquidity,
            ),
            true,
        ),
    ensures
        call_requires(deposit::value_vault, (&vault, &quote, position)),
{
}

/// An opening may begin where it is refused before its range is looked at, where
/// the width of its range fits in 32 bits, and wherever the answer is that it may.
pub proof fn law_opening_can_begin(
    vault: Vault,
    accounts: OpenPosition,
    request: OpenRequest,
    checked: Result<(), VaultError>,
    r: bool,
)
    requires
        call_ensures(open_position::can_begin, (&vault, &accounts, &request), r),
        call_ensures(open_position::check_request, (&vault, &accounts, &request), checked),
    ensures
        r <==> checked is Err || request.tick_upper_index - request.tick_lower_index <= 0x7fff_ffff,
        r ==> call_requires(open_position::begin, (&vault, &accounts, &request)),
        checked is Ok <==> {
            &&& accounts.operator == vault.operator || accounts.operator == vault.admin
            &&& !vault.has_active_position
            &&& accounts.pool_state == vault.pool_id
            &&& request.tick_lower_index < request.tick_upper_index
            &&& request.liquidity > 0 || request.amount_0_max > 0
            &&& request.slippage_bps <= 500
        },
{
}

/// A swap may begin where it is refused before the oracle is read, where the
/// oracle's window fits, and wherever the answer is that it may.
pub proof fn law_swap_can_begin(
    vault: Vault,
    accounts: SwapInTreasury,
    amount_in: u64,
    minimum_amount_out: u64,
    direction: SwapDirection,
    obs_data: &[u8],
    now: i64,
    checked: Result<(), VaultError>,
    fits: bool,
    r: bool,
)
    requires
        call_ensures(
            swap_in_treasury::can_begin,
            (&vault, &accounts, amount_in, minimum_amount_out, obs_data),
            r,
        ),
        call_ensures(
            swap_in_treasury::check_request,
            (&vault, &accounts, amount_in, minimum_amount_out),
            checked,
        ),
        call_ensures(oracle_window_fits, (obs_data,), fits),
    ensures
        r <==> checked is Err || fits,
        r ==> call_requires(
            swap_in_treasury::begin,
            (&vault, &accounts, amount_in, minimum_amount_out, direction, obs_data, now),
        ),
        checked is Ok ==> (accounts.admin == vault.operator || accounts.admin == vault.admin)
            && accounts.pool_state == vault.pool_id && amount_in > 0 && minimum_amount_out > 0,
{
}

/// A withdrawal from a position may begin where its accounts are refused, where
/// its oracle may be asked, and wherever the answer is that it may.
pub proof fn law_position_withdrawal_can_begin(
    vault: Vault,
    user_deposit: UserDeposit,
    accounts: WithdrawFromPosition,
    clmm_program: Pubkey,
    sqrt_price_x64: u128,
    obs_data: &[u8],
    checked: Result<(), VaultError>,
    guarded: bool,
    r: bool,
)
    requires
        call_ensures(
            withdraw_from_position::can_begin,
            (&vault, &user_deposit, &accounts, &clmm_program, obs_data),
            r,
        ),
        call_ensures(
            withdraw_from_position::check_accounts,
            (&vault, &user_deposit, &accounts),
            checked,
        ),
        call_ensures(
            can_check_feed,
            (&vault.pool_id, &accounts.observation_owner, &clmm_program, obs_data),
            guarded,
        ),
    ensures
        r <==> checked is Err || guarded,
        r ==> call_requires(
            withdraw_from_position::begin,
            (&vault, &user_deposit, &accounts, &clmm_program, sqrt_price_x64, obs_data),
        ),
{
}

} // verus!
