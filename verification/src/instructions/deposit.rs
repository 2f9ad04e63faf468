//! What the deposits of either token have in common.
//!
//! A deposit is priced at the pool's spot price, which must agree with the
//! oracle, and valued in token1 units. It mints shares in proportion to the
//! vault's worth with the position at that price, so that nobody profits from
//! amounts recorded earlier.

use crate::accounts::{
    check_position_account, is_position_account, Balances, PersonalPosition, PoolPrice,
    TokenAccount,
};
use crate::bytes::{field, le_nat, signed};
use crate::constants::{DEAD_SHARES, MAX_SQRT_DEVIATION_BPS, MIN_FIRST_DEPOSIT_VALUE};
use crate::errors::{outcome, VaultError};
use crate::instructions::sync_position_value::{amounts_fit, amounts_of};
use crate::liquidity::calculate_position_amounts;
use crate::math::{lemma_pow10_values, pow10, power_of_ten};
use crate::oracle::{can_check_feed, check_feed, feed_fits, feed_refusal};
use crate::price::{
    can_price, price_scale_fits, read_pool_sqrt_price_x64, read_pool_tick_current, read_pool_token_mint_0,
    sqrt_price_to_price, token0_price, POOL_SQRT_PRICE_OFFSET, POOL_TICK_CURRENT_OFFSET,
    POOL_TOKEN_MINT_0_OFFSET,
};
use crate::pubkey::{lemma_key_ext, Pubkey};
use crate::state::{shares_for, UserDeposit, Vault};
use vstd::arithmetic::power::{lemma_pow_increases, lemma_pow_positive, pow};
use vstd::prelude::*;

verus! {

/// Accounts of a deposit, but for the bytes of the pool and of the oracle.
#[derive(Clone, Copy, Debug)]
pub struct DepositAccounts {
    /// Who deposits.
    pub user: Pubkey,
    /// The vault's address.
    pub vault: Pubkey,
    /// Where the tokens come from.
    pub user_token_account: TokenAccount,
    /// Mint of the vault's shares.
    pub share_mint: Pubkey,
    /// Where the shares go.
    pub user_share_account: TokenAccount,
    /// The pool.
    pub raydium_pool: Pubkey,
    /// The program that owns the pool's account.
    pub raydium_pool_owner: Pubkey,
    /// The program that owns the observation account.
    pub observation_owner: Pubkey,
    /// The pool program's record of the position.
    pub personal_position: Pubkey,
    /// Bump of the deposit record's address.
    pub user_deposit_bump: u8,
}

/// What a deposit asks for.
#[derive(Clone, Copy, Debug, PartialEq, Eq, Structural)]
pub struct DepositRequest {
    /// How many raw units are deposited.
    pub amount: u64,
    /// Least amount that the vault takes of the token.
    pub min_deposit: u64,
    /// Least number of shares to be minted.
    pub min_shares_out: u64,
}

/// A deposit must be at least one whole token divided by this.
pub const LEAST_DEPOSIT_PARTS: u64 = 1_000;

/// The least deposit of a token with the given decimals, in raw units: one part
/// of a whole token, or one unit where a part is less. Decimals of which 64 bits
/// cannot hold a whole token count as the largest number that they hold.
pub open spec fn least_amount(decimals: int) -> int {
    if decimals < 3 {
        1
    } else if decimals <= 19 {
        pow10(decimals) / LEAST_DEPOSIT_PARTS as int
    } else {
        u64::MAX as int / LEAST_DEPOSIT_PARTS as int
    }
}

/// Tells the least deposit of a token with the given decimals, in raw units.
pub fn least_deposit(decimals: u8) -> (r: u64)
    ensures
        r == least_amount(decimals as int),
{
    if decimals < 3 {
        return 1;
    }
    if decimals > 19 {
        return u64::MAX / LEAST_DEPOSIT_PARTS;
    }
    let whole: u128 = power_of_ten(decimals);
    proof {
        lemma_pow_increases(10, decimals as nat, 19);
        lemma_pow10_values();
    }
    (whole / LEAST_DEPOSIT_PARTS as u128) as u64
}

/// A deposit of any token must be at least one unit, and no more than a whole
/// token is ever asked for.
pub proof fn law_least_deposit_is_part_of_a_token(decimals: int)
    requires
        0 <= decimals,
    ensures
        1 <= least_amount(decimals) <= pow10(decimals),
{
    lemma_pow10_values();
    lemma_pow_positive(10, decimals as nat);
    if 3 <= decimals <= 19 {
        lemma_pow_increases(10, 3, decimals as nat);
        assert(pow10(3) == 1_000) by {
            reveal_with_fuel(pow, 4);
        }
    } else if decimals > 19 {
        lemma_pow_increases(10, 19, decimals as nat);
    }
}

/// Why a deposit of the token with the mint `mint` is refused before the pool is
/// read, if it is.
pub open spec fn request_refusal(
    vault: Vault,
    accounts: DepositAccounts,
    mint: Pubkey,
    request: DepositRequest,
    clmm_program: Pubkey,
) -> Option<VaultError> {
    if accounts.user_token_account.owner != accounts.user {
        Some(VaultError::ConstraintRaw)
    } else if accounts.user_token_account.mint != mint {
        Some(VaultError::InvalidMint)
    } else if accounts.user_share_account.owner != accounts.user {
        Some(VaultError::ConstraintRaw)
    } else if accounts.user_share_account.mint != accounts.share_mint {
        Some(VaultError::ConstraintRaw)
    } else if accounts.raydium_pool_owner != clmm_program || accounts.raydium_pool
        != vault.pool_id {
        Some(VaultError::InvalidPriceFeed)
    } else if request.amount == 0 {
        Some(VaultError::InvalidAmount)
    } else if request.amount < request.min_deposit {
        Some(VaultError::DepositTooSmall)
    } else if vault.is_paused {
        Some(VaultError::VaultPaused)
    } else if vault.is_rebalancing {
        Some(VaultError::RebalancingInProgress)
    } else {
        None
    }
}

/// Checks everything about a deposit that does not need the pool.
pub fn check_request(
    vault: &Vault,
    accounts: &DepositAccounts,
    mint: &Pubkey,
    request: &DepositRequest,
    clmm_program: &Pubkey,
) -> (r: Result<(), VaultError>)
    ensures
        r == outcome(request_refusal(*vault, *accounts, *mint, *request, *clmm_program)),
{
    if accounts.user_token_account.owner != accounts.user {
        return Err(VaultError::ConstraintRaw);
    }
    if accounts.user_token_account.mint != *mint {
        return Err(VaultError::InvalidMint);
    }
    if accounts.user_share_account.owner != accounts.user {
        return Err(VaultError::ConstraintRaw);
    }
    if accounts.user_share_account.mint != accounts.share_mint {
        return Err(VaultError::ConstraintRaw);
    }
    if accounts.raydium_pool_owner != *clmm_program {
        return Err(VaultError::InvalidPriceFeed);
    }
    if accounts.raydium_pool != vault.pool_id {
        return Err(VaultError::InvalidPriceFeed);
    }
    if request.amount == 0 {
        return Err(VaultError::InvalidAmount);
    }
    if request.amount < request.min_deposit {
        return Err(VaultError::DepositTooSmall);
    }
    if vault.is_paused {
        return Err(VaultError::VaultPaused);
    }
    if vault.is_rebalancing {
        return Err(VaultError::RebalancingInProgress);
    }
    Ok(())
}

/// The price at which a deposit is valued.
#[derive(Clone, Copy, Debug)]
pub struct DepositQuote {
    /// Price of one whole token0 in raw token1 units.
    pub price: u64,
    /// What the pool says.
    pub pool: PoolPrice,
    /// The position must be read to know the vault's worth.
    pub needs_position: bool,
}

/// A pool account is long enough to give a price.
pub open spec fn has_price(pool_data: Seq<u8>) -> bool {
    pool_data.len() >= POOL_TICK_CURRENT_OFFSET + 4
}

/// The square-root price of a pool account.
pub open spec fn pool_sqrt_price(pool_data: Seq<u8>) -> int {
    le_nat(field(pool_data, POOL_SQRT_PRICE_OFFSET as int, 16))
}

/// The current tick of a pool account.
pub open spec fn pool_tick(pool_data: Seq<u8>) -> int {
    signed(le_nat(field(pool_data, POOL_TICK_CURRENT_OFFSET as int, 4)), 0x1_0000_0000)
}

/// A pool account lists the token with the mint `mint` first.
pub open spec fn lists_first(pool_data: Seq<u8>, mint: Pubkey) -> bool {
    field(pool_data, POOL_TOKEN_MINT_0_OFFSET as int, 32) == mint@
}

/// The price that a pool account gives of the vault's token0, if it gives one.
pub open spec fn spot_price(vault: Vault, pool_data: Seq<u8>) -> Option<u64> {
    if !has_price(pool_data) {
        None
    } else {
        token0_price(
            pool_sqrt_price(pool_data),
            lists_first(pool_data, vault.token0_mint),
            vault.token0_decimals as int,
        )
    }
}

/// The vault has a position with liquidity.
pub open spec fn needs_position(vault: Vault) -> bool {
    vault.has_active_position && vault.position_liquidity > 0
}

/// Why the pool's price is refused, if it is: there is none, or it is zero, or it
/// does not agree with the oracle. A vault without shares does without history.
pub open spec fn price_refusal(
    vault: Vault,
    observation_owner: Pubkey,
    clmm_program: Pubkey,
    pool_data: Seq<u8>,
    obs_data: Seq<u8>,
) -> Option<VaultError> {
    match spot_price(vault, pool_data) {
        None => Some(VaultError::InvalidPriceFeed),
        Some(price) => if price == 0 {
            Some(VaultError::InvalidPriceFeed)
        } else {
            feed_refusal(
                vault.pool_id,
                observation_owner,
                clmm_program,
                pool_sqrt_price(pool_data),
                obs_data,
                vault.total_shares > 0,
                MAX_SQRT_DEVIATION_BPS as int,
            )
        },
    }
}

/// `quote` is what the pool account says.
pub open spec fn quotes(quote: DepositQuote, vault: Vault, pool_data: Seq<u8>) -> bool {
    &&& spot_price(vault, pool_data) == Some(quote.price)
    &&& reads(quote.pool, pool_data)
    &&& quote.needs_position == needs_position(vault)
}

/// The price can be worked out without overflow and, where there is one, so can
/// the oracle's.
pub open spec fn price_fits(
    vault: Vault,
    observation_owner: Pubkey,
    clmm_program: Pubkey,
    pool_data: Seq<u8>,
    obs_data: Seq<u8>,
) -> bool {
    &&& has_price(pool_data) ==> price_scale_fits(
        pool_sqrt_price(pool_data),
        vault.token0_decimals as int,
    )
    &&& (spot_price(vault, pool_data) matches Some(price) && price > 0) ==> feed_fits(
        vault.pool_id,
        observation_owner,
        clmm_program,
        obs_data,
    )
}

/// `pool` is what a pool account says.
pub open spec fn reads(pool: PoolPrice, pool_data: Seq<u8>) -> bool {
    &&& pool.sqrt_price_x64 == pool_sqrt_price(pool_data)
    &&& pool.tick_current == pool_tick(pool_data)
    &&& pool.token_mint_0@ == field(pool_data, POOL_TOKEN_MINT_0_OFFSET as int, 32)
}

/// What a pool account says, if it is long enough.
pub fn read_pool(pool_data: &[u8]) -> (r: Option<PoolPrice>)
    ensures
        r is Some <==> has_price(pool_data@),
        r matches Some(pool) ==> reads(pool, pool_data@),
{
    let sqrt_price_x64: u128 = match read_pool_sqrt_price_x64(pool_data) {
        Some(v) => v,
        None => return None,
    };
    let token_mint_0: Pubkey = match read_pool_token_mint_0(pool_data) {
        Some(v) => v,
        None => return None,
    };
    let tick_current: i32 = match read_pool_tick_current(pool_data) {
        Some(v) => v,
        None => return None,
    };
    Some(PoolPrice { token_mint_0, sqrt_price_x64, tick_current })
}

/// The price of the vault's token0, with what the pool account says, if it gives
/// a price.
fn read_price(vault: &Vault, pool_data: &[u8]) -> (r: Option<(u64, PoolPrice)>)
    requires
        has_price(pool_data@) ==> price_scale_fits(
            pool_sqrt_price(pool_data@),
            vault.token0_decimals as int,
        ),
    ensures
        r is Some <==> spot_price(*vault, pool_data@) is Some,
        r matches Some(v) ==> spot_price(*vault, pool_data@) == Some(v.0) && reads(
            v.1,
            pool_data@,
        ),
{
    let pool: PoolPrice = match read_pool(pool_data) {
        Some(v) => v,
        None => return None,
    };
    proof {
        if pool.token_mint_0@ == vault.token0_mint@ {
            lemma_key_ext(pool.token_mint_0, vault.token0_mint);
        }
    }
    match sqrt_price_to_price(
        pool.sqrt_price_x64,
        pool.token_mint_0 == vault.token0_mint,
        vault.token0_decimals,
        vault.token1_decimals,
    ) {
        Some(price) => Some((price, pool)),
        None => None,
    }
}

/// Tells whether `quote_price` may be called.
pub fn can_quote_price(
    vault: &Vault,
    observation_owner: &Pubkey,
    clmm_program: &Pubkey,
    pool_data: &[u8],
    obs_data: &[u8],
) -> (r: bool)
    ensures
        r == price_fits(*vault, *observation_owner, *clmm_program, pool_data@, obs_data@),
{
    match read_pool(pool_data) {
        Some(pool) => {
            if !can_price(pool.sqrt_price_x64, vault.token0_decimals) {
                return false;
            }
        },
        None => {},
    }
    match read_price(vault, pool_data) {
        Some((price, _)) => price == 0 || can_check_feed(
            &vault.pool_id,
            observation_owner,
            clmm_program,
            obs_data,
        ),
        None => true,
    }
}

/// Reads the pool's price and holds it against the oracle.
pub fn quote_price(
    vault: &Vault,
    observation_owner: &Pubkey,
    clmm_program: &Pubkey,
    pool_data: &[u8],
    obs_data: &[u8],
) -> (r: Result<DepositQuote, VaultError>)
    requires
        price_fits(*vault, *observation_owner, *clmm_program, pool_data@, obs_data@),
    ensures
        match price_refusal(
            *vault,
            *observation_owner,
            *clmm_program,
            pool_data@,
            obs_data@,
        ) {
            Some(e) => r == Err::<DepositQuote, VaultError>(e),
            None => r matches Ok(quote) && quotes(quote, *vault, pool_data@),
        },
{
    let (price, pool): (u64, PoolPrice) = match read_price(vault, pool_data) {
        Some(v) => v,
        None => return Err(VaultError::InvalidPriceFeed),
    };
    if price == 0 {
        return Err(VaultError::InvalidPriceFeed);
    }
    match check_feed(
        &vault.pool_id,
        observation_owner,
        clmm_program,
        pool.sqrt_price_x64,
        obs_data,
        vault.total_shares > 0,
        MAX_SQRT_DEVIATION_BPS,
    ) {
        Err(e) => return Err(e),
        Ok(()) => {},
    }
    Ok(
        DepositQuote {
            price,
            pool,
            needs_position: vault.has_active_position && vault.position_liquidity > 0,
        },
    )
}

/// Why a deposit is refused before it is valued, if it is.
pub open spec fn quote_refusal(
    vault: Vault,
    accounts: DepositAccounts,
    mint: Pubkey,
    request: DepositRequest,
    clmm_program: Pubkey,
    pool_data: Seq<u8>,
    obs_data: Seq<u8>,
) -> Option<VaultError> {
    let price = price_refusal(
        vault,
        accounts.observation_owner,
        clmm_program,
        pool_data,
        obs_data,
    );
    if request_refusal(vault, accounts, mint, request, clmm_program) is Some {
        request_refusal(vault, accounts, mint, request, clmm_program)
    } else if price is Some {
        price
    } else if needs_position(vault) && !is_position_account(
        accounts.personal_position,
        vault.position_mint,
        clmm_program,
    ) {
        Some(VaultError::InvalidPosition)
    } else {
        None
    }
}

/// Nothing overflows, or the deposit is refused before it would.
pub open spec fn quote_fits(
    vault: Vault,
    accounts: DepositAccounts,
    mint: Pubkey,
    request: DepositRequest,
    clmm_program: Pubkey,
    pool_data: Seq<u8>,
    obs_data: Seq<u8>,
) -> bool {
    request_refusal(vault, accounts, mint, request, clmm_program) is None ==> price_fits(
        vault,
        accounts.observation_owner,
        clmm_program,
        pool_data,
        obs_data,
    )
}

/// Tells whether `quote` may be called.
pub fn can_quote(
    vault: &Vault,
    accounts: &DepositAccounts,
    mint: &Pubkey,
    request: &DepositRequest,
    clmm_program: &Pubkey,
    pool_data: &[u8],
    obs_data: &[u8],
) -> (r: bool)
    ensures
        r == quote_fits(
            *vault,
            *accounts,
            *mint,
            *request,
            *clmm_program,
            pool_data@,
            obs_data@,
        ),
{
    match check_request(vault, accounts, mint, request, clmm_program) {
        Err(_) => true,
        Ok(()) => can_quote_price(
            vault,
            &accounts.observation_owner,
            clmm_program,
            pool_data,
            obs_data,
        ),
    }
}

/// Checks a deposit and prices it. On success, if the quote says so, the pool
/// program's record of the position is to be read.
pub fn quote(
    vault: &Vault,
    accounts: &DepositAccounts,
    mint: &Pubkey,
    request: &DepositRequest,
    clmm_program: &Pubkey,
    pool_data: &[u8],
    obs_data: &[u8],
) -> (r: Result<DepositQuote, VaultError>)
    requires
        quote_fits(*vault, *accounts, *mint, *request, *clmm_program, pool_data@, obs_data@),
    ensures
        match quote_refusal(
            *vault,
            *accounts,
            *mint,
            *request,
            *clmm_program,
            pool_data@,
            obs_data@,
        ) {
            Some(e) => r == Err::<DepositQuote, VaultError>(e),
            None => r matches Ok(quote) && quotes(quote, *vault, pool_data@),
        },
{
    match check_request(vault, accounts, mint, request, clmm_program) {
        Err(e) => return Err(e),
        Ok(()) => {},
    }
    let priced: DepositQuote = match quote_price(
        vault,
        &accounts.observation_owner,
        clmm_program,
        pool_data,
        obs_data,
    ) {
        Ok(v) => v,
        Err(e) => return Err(e),
    };
    if priced.needs_position {
        match check_position_account(
            &accounts.personal_position,
            &vault.position_mint,
            clmm_program,
        ) {
            Err(e) => return Err(e),
            Ok(()) => {},
        }
    }
    Ok(priced)
}

/// What the position holds at the quoted price.
pub open spec fn placed(vault: Vault, quote: DepositQuote, position: Option<PersonalPosition>) -> (
    int,
    int,
) {
    match position {
        Some(p) => {
            let amounts = amounts_of(p, quote.pool, vault.token0_mint);
            (amounts.0 as int, amounts.1 as int)
        },
        None => (0, 0),
    }
}

/// The vault's worth at the quoted price.
pub open spec fn worth(vault: Vault, quote: DepositQuote, position: Option<PersonalPosition>) -> u64 {
    let amounts = placed(vault, quote, position);
    vault.tvl(quote.price as int, amounts.0, amounts.1)
}

/// Works out the vault's worth at the quoted price. `position` is the pool
/// program's record of the position, where the quote needs it.
pub fn value_vault(vault: &Vault, quote: &DepositQuote, position: Option<PersonalPosition>) -> (r:
    u64)
    requires
        vault.token0_decimals <= 38,
        position matches Some(p) ==> amounts_fit(p, quote.pool),
    ensures
        r == worth(*vault, *quote, position),
{
    let (token0, token1): (u64, u64) = match position {
        Some(p) => calculate_position_amounts(
            quote.pool.sqrt_price_x64,
            quote.pool.tick_current,
            p.tick_lower_index,
            p.tick_upper_index,
            p.liquidity,
            quote.pool.token_mint_0 == vault.token0_mint,
        ),
        None => (0, 0),
    };
    vault.calculate_tvl_with_position(quote.price, token0, token1)
}

/// Shares that a first deposit adds without an owner.
pub open spec fn dead_shares(vault: Vault) -> int {
    if vault.total_shares == 0 {
        DEAD_SHARES as int
    } else {
        0
    }
}

/// Why a deposit worth `value` into a vault worth `tvl` is refused, if it is.
pub open spec fn credit_refusal(
    vault: Vault,
    record: UserDeposit,
    amounts: Balances,
    value: int,
    tvl: int,
    min_shares_out: int,
) -> Option<VaultError> {
    let shares = shares_for(value, vault.total_shares as int, tvl);
    if value == 0 {
        Some(VaultError::InvalidAmount)
    } else if vault.total_shares == 0 && value < MIN_FIRST_DEPOSIT_VALUE {
        Some(VaultError::DepositTooSmall)
    } else if shares == 0 {
        Some(VaultError::InvalidAmount)
    } else if shares < min_shares_out {
        Some(VaultError::SlippageExceeded)
    } else if {
        ||| vault.treasury_token0 + amounts.token0 > u64::MAX
        ||| vault.treasury_token1 + amounts.token1 > u64::MAX
        ||| vault.total_shares + shares + dead_shares(vault) > u64::MAX
        ||| record.shares + shares > u64::MAX
        ||| record.total_deposited_token0 + amounts.token0 > u64::MAX
        ||| record.total_deposited_token1 + amounts.token1 > u64::MAX
    } {
        Some(VaultError::MathOverflow)
    } else {
        None
    }
}

/// The vault after a deposit of `amounts` for `shares`.
pub open spec fn vault_after(vault: Vault, amounts: Balances, shares: int) -> Vault {
    Vault {
        treasury_token0: (vault.treasury_token0 + amounts.token0) as u64,
        treasury_token1: (vault.treasury_token1 + amounts.token1) as u64,
        total_shares: (vault.total_shares + shares + dead_shares(vault)) as u64,
        ..vault
    }
}

/// The deposit record after a deposit of `amounts` for `shares`. A fresh record
/// is made out to the depositor.
pub open spec fn record_after(
    record: UserDeposit,
    accounts: DepositAccounts,
    amounts: Balances,
    shares: int,
    now: i64,
) -> UserDeposit {
    let fresh = record.created_at == 0;
    UserDeposit {
        user: if fresh {
            accounts.user
        } else {
            record.user
        },
        vault: if fresh {
            accounts.vault
        } else {
            record.vault
        },
        created_at: if fresh {
            now
        } else {
            record.created_at
        },
        bump: if fresh {
            accounts.user_deposit_bump
        } else {
            record.bump
        },
        shares: (record.shares + shares) as u64,
        total_deposited_token0: (record.total_deposited_token0 + amounts.token0) as u64,
        total_deposited_token1: (record.total_deposited_token1 + amounts.token1) as u64,
        updated_at: now,
        ..record
    }
}

/// Credits a deposit worth `value` to the depositor, into a vault worth `tvl`
/// before it. Gives the number of shares to be minted.
pub fn credit(
    vault: &mut Vault,
    record: &mut UserDeposit,
    accounts: &DepositAccounts,
    amounts: Balances,
    value: u64,
    tvl: u64,
    min_shares_out: u64,
    now: i64,
) -> (r: Result<u64, VaultError>)
    ensures
        match credit_refusal(
            *old(vault),
            *old(record),
            amounts,
            value as int,
            tvl as int,
            min_shares_out as int,
        ) {
            Some(e) => {
                &&& r == Err::<u64, VaultError>(e)
                &&& *final(vault) == *old(vault)
                &&& *final(record) == *old(record)
            },
            None => {
                let shares = shares_for(value as int, old(vault).total_shares as int, tvl as int);
                &&& r == Ok::<u64, VaultError>(shares as u64)
                &&& *final(vault) == vault_after(*old(vault), amounts, shares)
                &&& *final(record) == record_after(*old(record), *accounts, amounts, shares, now)
            },
        },
{
    if value == 0 {
        return Err(VaultError::InvalidAmount);
    }
    if vault.total_shares == 0 && value < MIN_FIRST_DEPOSIT_VALUE {
        return Err(VaultError::DepositTooSmall);
    }
    let shares: u64 = match vault.calculate_shares_to_mint(value, tvl) {
        Ok(v) => v,
        Err(e) => return Err(e),
    };
    proof {
        crate::state::lemma_shares_for_fits(value, vault.total_shares, tvl);
    }
    if shares == 0 {
        return Err(VaultError::InvalidAmount);
    }
    if shares < min_shares_out {
        return Err(VaultError::SlippageExceeded);
    }
    let dead: u64 = if vault.total_shares == 0 {
        DEAD_SHARES
    } else {
        0
    };
    let treasury_token0: u64 = match vault.treasury_token0.checked_add(amounts.token0) {
        Some(v) => v,
        None => return Err(VaultError::MathOverflow),
    };
    let treasury_token1: u64 = match vault.treasury_token1.checked_add(amounts.token1) {
        Some(v) => v,
        None => return Err(VaultError::MathOverflow),
    };
    let with_shares: u64 = match vault.total_shares.checked_add(shares) {
        Some(v) => v,
        None => return Err(VaultError::MathOverflow),
    };
    let total_shares: u64 = match with_shares.checked_add(dead) {
        Some(v) => v,
        None => return Err(VaultError::MathOverflow),
    };
    let recorded_shares: u64 = match record.shares.checked_add(shares) {
        Some(v) => v,
        None => return Err(VaultError::MathOverflow),
    };
    let deposited_token0: u64 = match record.total_deposited_token0.checked_add(amounts.token0) {
        Some(v) => v,
        None => return Err(VaultError::MathOverflow),
    };
    let deposited_token1: u64 = match record.total_deposited_token1.checked_add(amounts.token1) {
        Some(v) => v,
        None => return Err(VaultError::MathOverflow),
    };
    vault.treasury_token0 = treasury_token0;
    vault.treasury_token1 = treasury_token1;
    vault.total_shares = total_shares;
    if record.created_at == 0 {
        record.user = accounts.user;
        record.vault = accounts.vault;
        record.created_at = now;
        record.bump = accounts.user_deposit_bump;
    }
    record.shares = recorded_shares;
    record.total_deposited_token0 = deposited_token0;
    record.total_deposited_token1 = deposited_token1;
    record.updated_at = now;
    Ok(shares)
}

/// The vault's worth after a deposit, for the record. Where the sum does not fit,
/// the deposit is left out.
pub open spec fn worth_after(tvl: u64, value: u64) -> u64 {
    if tvl + value > u64::MAX {
        tvl
    } else {
        (tvl + value) as u64
    }
}

/// Works out the vault's worth after a deposit, for the record.
pub fn add_value(tvl: u64, value: u64) -> (r: u64)
    ensures
        r == worth_after(tvl, value),
{
    match tvl.checked_add(value) {
        Some(v) => v,
        None => tvl,
    }
}

} // verus!
