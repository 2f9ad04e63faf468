//! Which answer is given where several reasons speak against a request: the first
//! of them in the order of the checks.

use crate::accounts::{Balances, HolderAccounts, PoolPrice, PositionAccounts};
use crate::errors::VaultError;
use crate::events::{DepositUsdcEvent, RewardsExtracted, WithdrawEvent, WithdrawToManageEvent};
use crate::instructions::delegation::Grants;
use crate::instructions::deposit::{
    check_request, credit, quote_price, read_pool, DepositAccounts, DepositQuote, DepositRequest,
};
use crate::instructions::deposit_usdc;
use crate::instructions::deposit_usdc::DepositUsdc;
use crate::instructions::extract_protocol_fee;
use crate::instructions::extract_protocol_fee::ExtractProtocolFee;
use crate::instructions::extract_rewards;
use crate::instructions::extract_rewards::ExtractRewards;
use crate::instructions::increase_liquidity;
use crate::instructions::increase_liquidity::IncreaseLiquidity;
use crate::instructions::migrate_vault::{migrate_with, MigrateVault, Migration};
use crate::instructions::open_position;
use crate::instructions::open_position::{check_amounts, OpenPosition, OpenRequest};
use crate::instructions::swap_in_treasury;
use crate::instructions::swap_in_treasury::{check_limits, SwapDirection, SwapInTreasury, SwapPlan};
use crate::instructions::update_tvl;
use crate::instructions::update_tvl::UpdateTvl;
use crate::instructions::withdraw;
use crate::instructions::withdraw_from_position;
use crate::instructions::withdraw_from_position::{
    check_accounts, settle, Entitlement, Payout, WithdrawFromPosition,
};
use crate::instructions::withdraw_to_manage;
use crate::instructions::withdraw_to_manage::ManageAccounts;
use crate::laws::{is_quotient, lesser, rest};
use crate::managed::{ManagedDeposit, ManagedVault};
use crate::oracle::check_feed;
use crate::price::{sqrt_price_to_price, swap_min_out_floor};
use crate::pubkey::Pubkey;
use crate::state::{shares_for_deposit, validate_position_range, UserDeposit, Vault};
use vstd::prelude::*;

verus! {

/// Of a deposit, the token account comes first, the share account next, the pool,
/// the amount, the pause and the rebalance last.
pub proof fn law_deposit_answers_in_order(
    vault: Vault,
    accounts: DepositAccounts,
    mint: Pubkey,
    request: DepositRequest,
    clmm_program: Pubkey,
    r: Result<(), VaultError>,
)
    requires
        call_ensures(check_request, (&vault, &accounts, &mint, &request, &clmm_program), r),
    ensures
        ({
            let token_owned = accounts.user_token_account.owner == accounts.user;
            let token_minted = accounts.user_token_account.mint == mint;
            let share_right = accounts.user_share_account.owner == accounts.user
                && accounts.user_share_account.mint == accounts.share_mint;
            let pool_right = accounts.raydium_pool == vault.pool_id && accounts.raydium_pool_owner
                == clmm_program;
            &&& !token_owned ==> answers(r, VaultError::ConstraintRaw)
            &&& token_owned && !token_minted ==> answers(r, VaultError::InvalidMint)
            &&& token_owned && token_minted && !share_right ==> answers(
                r,
                VaultError::ConstraintRaw,
            )
            &&& token_owned && token_minted && share_right ==> {
                &&& !pool_right ==> answers(r, VaultError::InvalidPriceFeed)
                &&& pool_right && request.amount == 0 ==> answers(r, VaultError::InvalidAmount)
                &&& pool_right && 0 < request.amount < request.min_deposit ==> answers(
                    r,
                    VaultError::DepositTooSmall,
                )
                &&& pool_right && 0 < request.amount && request.min_deposit <= request.amount ==> {
                    &&& vault.is_paused ==> answers(r, VaultError::VaultPaused)
                    &&& !vault.is_paused && vault.is_rebalancing ==> answers(
                        r,
                        VaultError::RebalancingInProgress,
                    )
                }
            }
        }),
{
}

/// The call answers with the error `e`.
pub open spec fn answers<T>(r: Result<T, VaultError>, e: VaultError) -> bool {
    r == Err::<T, VaultError>(e)
}

/// Of a deposit's price, the price itself comes before the oracle.
pub proof fn law_price_answers_before_the_oracle(
    vault: Vault,
    observation_owner: Pubkey,
    clmm_program: Pubkey,
    pool_data: &[u8],
    obs_data: &[u8],
    pool: Option<PoolPrice>,
    spot: Option<u64>,
    r: Result<DepositQuote, VaultError>,
)
    requires
        call_ensures(
            quote_price,
            (&vault, &observation_owner, &clmm_program, pool_data, obs_data),
            r,
        ),
        call_ensures(read_pool, (pool_data,), pool),
        pool is Some ==> call_ensures(
            sqrt_price_to_price,
            (
                pool->0.sqrt_price_x64,
                pool->0.token_mint_0 == vault.token0_mint,
                vault.token0_decimals,
                vault.token1_decimals,
            ),
            spot,
        ),
        pool is None ==> spot is None,
    ensures
        spot is None || spot == Some(0u64) ==> answers(r, VaultError::InvalidPriceFeed),
{
    if pool is Some && pool->0.token_mint_0@ == vault.token0_mint@ {
        crate::pubkey::lemma_key_ext(pool->0.token_mint_0, vault.token0_mint);
    }
}

/// Of a deposit's credit, the value comes first, the least of a first deposit
/// next, then the shares, and the sums last.
pub proof fn law_credit_answers_in_order(
    vault: &mut Vault,
    record: &mut UserDeposit,
    accounts: DepositAccounts,
    amounts: Balances,
    value: u64,
    tvl: u64,
    min_shares_out: u64,
    now: i64,
    shares: u64,
    r: Result<u64, VaultError>,
)
    requires
        call_ensures(
            credit,
            (vault, record, &accounts, amounts, value, tvl, min_shares_out, now),
            r,
        ),
        call_ensures(shares_for_deposit, (value, vault.total_shares, tvl), shares),
    ensures
        ({
            let first = old(vault).total_shares == 0;
            &&& value == 0 ==> answers(r, VaultError::InvalidAmount)
            &&& first && 0 < value < 100_000 ==> answers(r, VaultError::DepositTooSmall)
            &&& 0 < value && !(first && value < 100_000) ==> {
                &&& shares == 0 ==> answers(r, VaultError::InvalidAmount)
                &&& 0 < shares < min_shares_out ==> answers(r, VaultError::SlippageExceeded)
            }
        }),
{
    crate::state::lemma_shares_for_fits(value, vault.total_shares, tvl);
}

/// Of the arguments with which liquidity is added, the amounts come before the
/// slippage.
pub proof fn law_amounts_answer_before_the_slippage(
    liquidity: u128,
    amount_0_max: u64,
    slippage_bps: u16,
    r: Result<(), VaultError>,
)
    requires
        call_ensures(check_amounts, (liquidity, amount_0_max, slippage_bps), r),
    ensures
        liquidity == 0 && amount_0_max == 0 ==> answers(r, VaultError::InvalidAmount),
        (liquidity > 0 || amount_0_max > 0) && slippage_bps > 500 ==> answers(
            r,
            VaultError::SlippageTooHigh,
        ),
        (liquidity > 0 || amount_0_max > 0) && slippage_bps <= 500 ==> r is Ok,
{
}

/// Of an opening, who asks comes first, then a position that is there, the pool,
/// the order of the ticks, the arguments, the range, and the treasuries last.
pub proof fn law_opening_answers_in_order(
    vault: Vault,
    accounts: OpenPosition,
    request: OpenRequest,
    amounts: Result<(), VaultError>,
    range: Result<(), VaultError>,
    r: Result<Grants, VaultError>,
)
    requires
        call_ensures(open_position::begin, (&vault, &accounts, &request), r),
        call_ensures(
            check_amounts,
            (request.liquidity, request.amount_0_max, request.slippage_bps),
            amounts,
        ),
        call_ensures(
            validate_position_range,
            (
                request.tick_lower_index,
                request.tick_upper_index,
                accounts.tick_current,
                accounts.tick_spacing as i32,
            ),
            range,
        ),
    ensures
        ({
            let permitted = accounts.operator == vault.operator || accounts.operator == vault.admin;
            let pool_right = accounts.pool_state == vault.pool_id;
            let upward = request.tick_lower_index < request.tick_upper_index;
            &&& !permitted ==> answers(r, VaultError::Unauthorized)
            &&& permitted && vault.has_active_position ==> answers(
                r,
                VaultError::PositionAlreadyExists,
            )
            &&& permitted && !vault.has_active_position ==> {
                &&& !pool_right ==> answers(r, VaultError::InvalidPriceFeed)
                &&& pool_right && !upward ==> answers(r, VaultError::InvalidTickRange)
                &&& pool_right && upward && amounts is Err ==> answers(r, amounts->Err_0)
                &&& pool_right && upward && amounts is Ok && range is Err ==> answers(
                    r,
                    range->Err_0,
                )
                &&& pool_right && upward && amounts is Ok && range is Ok && (
                accounts.token0_treasury.amount < request.amount_0_max
                    || accounts.token1_treasury.amount < request.amount_1_max) ==> answers(
                    r,
                    VaultError::InsufficientTreasuryBalance,
                )
            }
        }),
{
}

/// Of an increase, who asks comes first, then the position, its accounts, the
/// arguments, and the treasuries last.
pub proof fn law_increase_answers_in_order(
    vault: Vault,
    accounts: IncreaseLiquidity,
    liquidity: u128,
    amount_0_max: u64,
    amount_1_max: u64,
    slippage_bps: u16,
    checked: Result<(), VaultError>,
    amounts: Result<(), VaultError>,
    r: Result<Grants, VaultError>,
)
    requires
        call_ensures(
            increase_liquidity::begin,
            (&vault, &accounts, liquidity, amount_0_max, amount_1_max, slippage_bps),
            r,
        ),
        call_ensures(
            PositionAccounts::check,
            (&accounts.position, &vault.position_mint),
            checked,
        ),
        call_ensures(check_amounts, (liquidity, amount_0_max, slippage_bps), amounts),
    ensures
        accounts.admin != vault.admin ==> answers(r, VaultError::Unauthorized),
        accounts.admin == vault.admin && !vault.has_active_position ==> answers(
            r,
            VaultError::NoActivePosition,
        ),
        accounts.admin == vault.admin && vault.has_active_position ==> {
            &&& checked is Err ==> answers(r, checked->Err_0)
            &&& checked is Ok && amounts is Err ==> answers(r, amounts->Err_0)
            &&& checked is Ok && amounts is Ok && (accounts.token0_treasury.amount < amount_0_max
                || accounts.token1_treasury.amount < amount_1_max) ==> answers(
                r,
                VaultError::InsufficientTreasuryBalance,
            )
        },
{
}

/// Of a position's accounts, the one token comes first, its mint next, and the
/// record's pool last.
pub proof fn law_position_accounts_answer_in_order(
    accounts: PositionAccounts,
    position_mint: Pubkey,
    r: Result<(), VaultError>,
)
    requires
        call_ensures(PositionAccounts::check, (&accounts, &position_mint), r),
    ensures
        accounts.position_nft_account.amount != 1 ==> answers(r, VaultError::ConstraintRaw),
        accounts.position_nft_account.amount == 1 && accounts.position_nft_account.mint
            != position_mint ==> answers(r, VaultError::InvalidPosition),
{
}

/// Of a swap, who asks comes first, then the pool, the amounts, and the accounts
/// that the pool names; then the oracle; then the limits; then the treasury of the
/// token sold, and the mints last.
pub proof fn law_swap_answers_in_order(
    vault: Vault,
    accounts: SwapInTreasury,
    amount_in: u64,
    minimum_amount_out: u64,
    direction: SwapDirection,
    obs_data: &[u8],
    now: i64,
    checked: Result<(), VaultError>,
    reference: Option<u128>,
    limits: Result<SwapPlan, VaultError>,
    r: Result<SwapPlan, VaultError>,
)
    requires
        call_ensures(
            swap_in_treasury::begin,
            (&vault, &accounts, amount_in, minimum_amount_out, direction, obs_data, now),
            r,
        ),
        call_ensures(
            swap_in_treasury::check_request,
            (&vault, &accounts, amount_in, minimum_amount_out),
            checked,
        ),
        call_ensures(crate::oracle::reference_sqrt_price, (obs_data,), reference),
        reference is Some ==> call_ensures(
            check_limits,
            (&vault, &accounts, amount_in, minimum_amount_out, direction, reference->0, now),
            limits,
        ),
    ensures
        ({
            let permitted = accounts.admin == vault.operator || accounts.admin == vault.admin;
            let pool_right = accounts.pool_state == vault.pool_id;
            let something = amount_in > 0 && minimum_amount_out > 0;
            let named = accounts.observation_state == accounts.pool_observation_key
                && accounts.amm_config == accounts.pool_amm_config;
            let held = match direction {
                SwapDirection::Token0ToToken1 => accounts.token0_treasury.amount,
                SwapDirection::Token1ToToken0 => accounts.token1_treasury.amount,
            };
            &&& !permitted ==> answers(checked, VaultError::Unauthorized)
            &&& permitted && !pool_right ==> answers(checked, VaultError::InvalidPriceFeed)
            &&& permitted && pool_right && !something ==> answers(
                checked,
                VaultError::InvalidAmount,
            )
            &&& permitted && pool_right && something && !named ==> answers(
                checked,
                VaultError::InvalidPriceFeed,
            )
            &&& checked is Err ==> answers(r, checked->Err_0)
            &&& checked is Ok && reference is None ==> answers(r, VaultError::OracleUnavailable)
            &&& checked is Ok && reference is Some && limits is Err ==> answers(r, limits->Err_0)
            &&& checked is Ok && reference is Some && limits is Ok && held < amount_in ==> answers(
                r,
                VaultError::InsufficientTreasuryBalance,
            )
        }),
{
}

/// Of a swap's limits, the floor comes before the cooldown, and the cooldown
/// before the volume.
pub proof fn law_limits_answer_in_order(
    vault: Vault,
    accounts: SwapInTreasury,
    amount_in: u64,
    minimum_amount_out: u64,
    direction: SwapDirection,
    reference: u128,
    now: i64,
    sells_first: bool,
    floor: Option<u64>,
    r: Result<SwapPlan, VaultError>,
)
    requires
        call_ensures(
            check_limits,
            (&vault, &accounts, amount_in, minimum_amount_out, direction, reference, now),
            r,
        ),
        sells_first == ((direction == SwapDirection::Token0ToToken1) == (vault.token0_mint
            == accounts.pool_token_mint_0)),
        call_ensures(swap_min_out_floor, (reference, amount_in, sells_first), floor),
    ensures
        floor is None ==> answers(r, VaultError::MathOverflow),
        floor is Some && minimum_amount_out < floor->0 ==> answers(
            r,
            VaultError::SlippageExceeded,
        ),
        floor is Some && minimum_amount_out >= floor->0 && now - vault.last_swap_at < 60
            ==> answers(r, VaultError::SwapCooldownActive) || answers(r, VaultError::MathOverflow),
{
}

/// Of a holder's accounts, the record comes first, then the shares, then the
/// token0 account and the token1 account, each by its owner before its mint.
pub proof fn law_holder_accounts_answer_in_order(
    accounts: HolderAccounts,
    recorded_user: Pubkey,
    r: Result<(), VaultError>,
)
    requires
        call_ensures(HolderAccounts::check, (&accounts, &recorded_user), r),
    ensures
        ({
            let shares_right = accounts.user == recorded_user && accounts.user
                == accounts.user_share_account.owner && accounts.user_share_account.mint
                == accounts.share_mint;
            let owned0 = accounts.user == accounts.user_token0_account.owner;
            let minted0 = accounts.user_token0_account.mint == accounts.token0_treasury.mint;
            let owned1 = accounts.user == accounts.user_token1_account.owner;
            &&& !shares_right || !owned0 ==> answers(r, VaultError::ConstraintRaw)
            &&& shares_right && owned0 && !minted0 ==> answers(r, VaultError::InvalidMint)
            &&& shares_right && owned0 && minted0 && !owned1 ==> answers(
                r,
                VaultError::ConstraintRaw,
            )
        }),
{
}

/// Of a withdrawal from the treasury, the accounts come first, then the pause, a
/// position, a rebalance, the shares, what the treasuries can pay, what was asked
/// for, and more shares than there are last.
pub proof fn law_withdrawal_answers_in_order(
    vault: &mut Vault,
    user_deposit: &mut UserDeposit,
    accounts: HolderAccounts,
    min_token0_out: u64,
    min_token1_out: u64,
    now: i64,
    checked: Result<(), VaultError>,
    paid0: u64,
    paid1: u64,
    r: Result<WithdrawEvent, VaultError>,
)
    requires
        call_ensures(
            withdraw::handler,
            (vault, user_deposit, &accounts, min_token0_out, min_token1_out, now),
            r,
        ),
        call_ensures(HolderAccounts::check, (&accounts, &user_deposit.user), checked),
        vault.total_shares > 0 ==> is_quotient(
            paid0 as int,
            lesser(
                rest(vault.treasury_token0 as int, vault.accumulated_protocol_fees_token0 as int)
                    + vault.position_token0,
                u64::MAX as int,
            ) * accounts.user_share_account.amount,
            vault.total_shares as int,
        ) && is_quotient(
            paid1 as int,
            lesser(
                rest(vault.treasury_token1 as int, vault.accumulated_protocol_fees_token1 as int)
                    + vault.position_token1,
                u64::MAX as int,
            ) * accounts.user_share_account.amount,
            vault.total_shares as int,
        ),
    ensures
        ({
            let v = *old(vault);
            let shares = accounts.user_share_account.amount;
            let waiting = v.is_rebalancing && (v.rebalance_started_at <= 0 || now
                <= v.rebalance_started_at + 3_600);
            let payable = paid0 <= rest(
                accounts.token0_treasury.amount as int,
                v.accumulated_protocol_fees_token0 as int,
            ) && paid1 <= rest(
                accounts.token1_treasury.amount as int,
                v.accumulated_protocol_fees_token1 as int,
            );
            let enough = paid0 >= min_token0_out && paid1 >= min_token1_out;
            &&& checked is Err ==> answers(r, checked->Err_0)
            &&& checked is Ok && v.is_paused ==> answers(r, VaultError::VaultPaused)
            &&& checked is Ok && !v.is_paused ==> {
                &&& v.has_active_position ==> answers(r, VaultError::PositionAlreadyExists)
                &&& !v.has_active_position && waiting ==> answers(
                    r,
                    VaultError::RebalancingInProgress,
                )
                &&& !v.has_active_position && !waiting ==> {
                    &&& shares == 0 || v.total_shares == 0 ==> answers(
                        r,
                        VaultError::InsufficientShares,
                    )
                    &&& shares > 0 && v.total_shares > 0 ==> {
                        &&& !payable ==> answers(r, VaultError::WithdrawalExceedsTreasury)
                        &&& payable && !enough ==> answers(r, VaultError::SlippageExceeded)
                        &&& payable && enough && shares > v.total_shares ==> answers(
                            r,
                            VaultError::MathOverflow,
                        )
                    }
                }
            }
        }),
{
    let shares = accounts.user_share_account.amount as int;
    let total = vault.total_shares as int;
    if total > 0 {
        let own0 = lesser(
            rest(vault.treasury_token0 as int, vault.accumulated_protocol_fees_token0 as int)
                + vault.position_token0,
            u64::MAX as int,
        );
        let own1 = lesser(
            rest(vault.treasury_token1 as int, vault.accumulated_protocol_fees_token1 as int)
                + vault.position_token1,
            u64::MAX as int,
        );
        crate::math::lemma_div_unique(own0 * shares, total, paid0 as int);
        crate::math::lemma_div_unique(own1 * shares, total, paid1 as int);
    }
}

/// Of a withdrawal from a position, the position comes first, then the holder's
/// accounts, the pool, the position's token and its record; then the oracle, and
/// the shares last.
pub proof fn law_position_withdrawal_answers_in_order(
    vault: Vault,
    user_deposit: UserDeposit,
    accounts: WithdrawFromPosition,
    clmm_program: Pubkey,
    sqrt_price_x64: u128,
    obs_data: &[u8],
    holder: Result<(), VaultError>,
    checked: Result<(), VaultError>,
    feed: Result<(), VaultError>,
    r: Result<(), VaultError>,
)
    requires
        call_ensures(
            withdraw_from_position::begin,
            (&vault, &user_deposit, &accounts, &clmm_program, sqrt_price_x64, obs_data),
            r,
        ),
        call_ensures(HolderAccounts::check, (&accounts.holder, &user_deposit.user), holder),
        call_ensures(check_accounts, (&vault, &user_deposit, &accounts), checked),
        call_ensures(
            check_feed,
            (
                &vault.pool_id,
                &accounts.observation_owner,
                &clmm_program,
                sqrt_price_x64,
                obs_data,
                true,
                500u128,
            ),
            feed,
        ),
    ensures
        ({
            let p = accounts.position;
            let pool_right = p.pool_state == vault.pool_id;
            let single = p.position_nft_account.amount == 1;
            let own = p.position_nft_account.mint == vault.position_mint
                && p.position_nft_account.owner == accounts.vault;
            &&& !vault.has_active_position ==> answers(checked, VaultError::NoActivePosition)
            &&& vault.has_active_position && holder is Err ==> answers(checked, holder->Err_0)
            &&& vault.has_active_position && holder is Ok ==> {
                &&& !pool_right ==> answers(checked, VaultError::InvalidPriceFeed)
                &&& pool_right && !single ==> answers(checked, VaultError::ConstraintRaw)
                &&& pool_right && single && !own ==> answers(checked, VaultError::InvalidPosition)
            }
            &&& checked is Err ==> answers(r, checked->Err_0)
            &&& checked is Ok && feed is Err ==> answers(r, feed->Err_0)
        }),
{
}

/// Of a payout, a number that does not fit comes before one that is too small.
pub proof fn law_payout_answers_in_order(
    entitlement: Entitlement,
    before: Balances,
    after: Balances,
    min_token0_out: u64,
    min_token1_out: u64,
    r: Result<Payout, VaultError>,
)
    requires
        call_ensures(settle, (&entitlement, before, after, min_token0_out, min_token1_out), r),
    ensures
        entitlement.from_treasury.token0 + rest(after.token0 as int, before.token0 as int)
            > u64::MAX || entitlement.from_treasury.token1 + rest(
            after.token1 as int,
            before.token1 as int,
        ) > u64::MAX ==> answers(r, VaultError::MathOverflow),
{
}

/// Of a fee payout, who asks comes first, then the token0 account and the token1
/// account, each by its owner before its mint, and the fees last.
pub proof fn law_fee_payout_answers_in_order(
    vault: Vault,
    accounts: ExtractProtocolFee,
    r: Result<Balances, VaultError>,
)
    requires
        call_ensures(extract_protocol_fee::begin, (&vault, &accounts), r),
    ensures
        ({
            let first = accounts.admin == vault.admin && accounts.protocol_token0_account.owner
                == vault.protocol_wallet;
            let minted0 = accounts.protocol_token0_account.mint == accounts.token0_treasury.mint;
            let owned1 = accounts.protocol_token1_account.owner == vault.protocol_wallet;
            let minted1 = accounts.protocol_token1_account.mint == accounts.token1_treasury.mint;
            &&& !first ==> answers(r, VaultError::Unauthorized)
            &&& first && !minted0 ==> answers(r, VaultError::InvalidMint)
            &&& first && minted0 && !owned1 ==> answers(r, VaultError::Unauthorized)
            &&& first && minted0 && owned1 && !minted1 ==> answers(r, VaultError::InvalidMint)
        }),
{
}

/// Of a reward payout, who asks comes first, then the reward's mint, the vault's
/// account, the protocol's account, and the amount last.
pub proof fn law_reward_payout_answers_in_order(
    vault: Vault,
    accounts: ExtractRewards,
    r: Result<RewardsExtracted, VaultError>,
)
    requires
        call_ensures(extract_rewards::handler, (&vault, &accounts), r),
    ensures
        ({
            let reward = accounts.reward_mint != vault.token0_mint && accounts.reward_mint
                != vault.token1_mint;
            let held = accounts.vault_reward_account.owner == accounts.vault;
            let held_minted = accounts.vault_reward_account.mint == accounts.reward_mint;
            let paid = accounts.protocol_reward_account.owner == vault.protocol_wallet;
            let paid_minted = accounts.protocol_reward_account.mint == accounts.reward_mint;
            accounts.admin == vault.admin ==> {
                &&& !reward ==> answers(r, VaultError::InvalidMint)
                &&& reward && !held ==> answers(r, VaultError::Unauthorized)
                &&& reward && held && !held_minted ==> answers(r, VaultError::InvalidMint)
                &&& reward && held && held_minted && !paid ==> answers(r, VaultError::Unauthorized)
                &&& reward && held && held_minted && paid && !paid_minted ==> answers(
                    r,
                    VaultError::InvalidMint,
                )
            }
        }),
{
}

/// Of a migration, the mints come first and the pool next, an account that is
/// current after them, then who asks, recorded liquidity, and the position last.
pub proof fn law_migration_answers_in_order(
    data: &[u8],
    accounts: MigrateVault,
    protocol_wallet: Pubkey,
    clmm_program: Pubkey,
    derived: Option<Pubkey>,
    position_data: &[u8],
    liquidity: u128,
    r: Result<Migration, VaultError>,
)
    requires
        call_ensures(
            migrate_with,
            (data, &accounts, &protocol_wallet, &clmm_program, derived, position_data),
            r,
        ),
        data@.len() >= 359 ==> call_ensures(crate::bytes::read_le, (data, 343, 16), liquidity),
        data@.len() < 359 ==> liquidity == 0,
    ensures
        ({
            let minted = accounts.token0_mint.key == accounts.token0_treasury.mint
                && accounts.token1_mint.key == accounts.token1_treasury.mint;
            let pool_right = accounts.pool_owner == clmm_program;
            let current = data@.len() == 489 && data@.subrange(72, 104)
                == accounts.pool_id_account@;
            let permitted = data@.len() >= 40 && data@.subrange(8, 40) == accounts.admin@;
            &&& !minted ==> answers(r, VaultError::InvalidMint)
            &&& minted && !pool_right ==> answers(r, VaultError::InvalidPriceFeed)
            &&& minted && pool_right && current ==> r == Ok::<Migration, VaultError>(
                Migration::AlreadyMigrated,
            )
            &&& minted && pool_right && !current && !permitted ==> answers(
                r,
                VaultError::Unauthorized,
            )
            &&& minted && pool_right && !current && permitted && liquidity != 0 ==> answers(
                r,
                VaultError::PositionAlreadyExists,
            )
        }),
{
}

/// Of a deposit of USDC, the accounts come first, then the amount, the pause, the
/// age of the report, the shares, and the sums last.
pub proof fn law_usdc_deposit_answers_in_order(
    vault: &mut ManagedVault,
    record: &mut ManagedDeposit,
    accounts: DepositUsdc,
    amount: u64,
    now: i64,
    shares: u64,
    r: Result<DepositUsdcEvent, VaultError>,
)
    requires
        call_ensures(deposit_usdc::handler, (vault, record, &accounts, amount, now), r),
        call_ensures(shares_for_deposit, (amount, vault.total_shares, vault.tvl_usd), shares),
    ensures
        ({
            let own = {
                &&& accounts.user_usdc_account.owner == accounts.user
                &&& accounts.user_usdc_account.mint == accounts.usdc_mint
                &&& accounts.user_share_account.owner == accounts.user
                &&& accounts.user_share_account.mint == accounts.share_mint
            };
            let recent = now - old(vault).last_tvl_update < 600 || old(vault).total_shares == 0;
            &&& !own ==> answers(r, VaultError::ConstraintRaw)
            &&& own && amount == 0 ==> answers(r, VaultError::InvalidAmount)
            &&& own && amount > 0 && old(vault).is_paused ==> answers(r, VaultError::VaultPaused)
            &&& own && amount > 0 && !old(vault).is_paused && !recent ==> answers(
                r,
                VaultError::StaleTvl,
            )
            &&& own && amount > 0 && !old(vault).is_paused && recent && shares == 0 ==> answers(
                r,
                VaultError::InvalidAmount,
            )
        }),
{
    crate::state::lemma_shares_for_fits(amount, vault.total_shares, vault.tvl_usd);
}

/// Of a report, who reports comes first, then the price of SOL, and the worth
/// last.
pub proof fn law_report_answers_in_order(
    vault: &mut ManagedVault,
    accounts: UpdateTvl,
    tvl_usd: u64,
    sol_price: u64,
    now: i64,
    r: Result<(), VaultError>,
)
    requires
        call_ensures(update_tvl::handler, (vault, &accounts, tvl_usd, sol_price, now), r),
    ensures
        accounts.admin != old(vault).admin ==> answers(r, VaultError::Unauthorized),
        accounts.admin == old(vault).admin && sol_price == 0 ==> answers(
            r,
            VaultError::InvalidSolPrice,
        ),
{
}

/// Of a movement of managed funds, who asks comes first, then whose the accounts
/// are, and the amounts last; of a withdrawal, then what the treasuries hold, and
/// then half of it.
pub proof fn law_managed_withdrawal_answers_in_order(
    vault: &mut ManagedVault,
    accounts: ManageAccounts,
    sol_amount: u64,
    usdc_amount: u64,
    before: ManagedVault,
    checked: Result<(), VaultError>,
    r: Result<WithdrawToManageEvent, VaultError>,
)
    requires
        before == *vault,
        call_ensures(
            withdraw_to_manage::handler,
            (vault, &accounts, sol_amount, usdc_amount),
            r,
        ),
        call_ensures(
            ManageAccounts::check,
            (&accounts, &before, sol_amount, usdc_amount),
            checked,
        ),
    ensures
        ({
            let owned = accounts.admin_wsol_account.owner == accounts.admin
                && accounts.admin_usdc_account.owner == accounts.admin;
            let covered = sol_amount <= accounts.sol_treasury.amount && usdc_amount
                <= accounts.usdc_treasury.amount;
            let half = 2 * sol_amount <= accounts.sol_treasury.amount && 2 * usdc_amount
                <= accounts.usdc_treasury.amount;
            &&& accounts.admin != before.admin ==> answers(checked, VaultError::Unauthorized)
            &&& accounts.admin == before.admin && !owned ==> answers(
                checked,
                VaultError::ConstraintRaw,
            )
            &&& checked is Err ==> answers(r, checked->Err_0)
            &&& checked is Ok && !covered ==> answers(r, VaultError::InsufficientTreasuryBalance)
            &&& checked is Ok && covered && !half ==> answers(
                r,
                VaultError::WithdrawalExceedsTreasury,
            )
        }),
{
}

} // verus!
