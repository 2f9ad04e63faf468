//! The vault's account, its share formulas, and the range a position may take.

use crate::constants::{
    DEAD_SHARES, MAX_POSITION_WIDTH_SPACINGS, MIN_POSITION_SIDE_PCT, MIN_POSITION_WIDTH_SPACINGS,
};
use crate::errors::VaultError;
use crate::math::{
    clamp_u64, fit_u64, fit_u64_or_zero, lemma_mul_u64, monus, mul_div, or_zero, pow10,
    power_of_ten,
};
use crate::pubkey::{no_key, Pubkey};
use vstd::prelude::*;

pub use crate::constants::{
    MAX_SQRT_DEVIATION_BPS, MAX_SQRT_DEVIATION_WITHDRAW_BPS, MAX_SWAP_SLIPPAGE_BPS,
    MAX_SWAP_VOLUME_BPS, SWAP_COOLDOWN_SECS, SWAP_WINDOW_SECS,
};
pub use crate::liquidity::{calculate_position_amounts, get_amount_0_delta, get_amount_1_delta};
pub use crate::oracle::{check_price_not_manipulated, observation_pool_id, reference_sqrt_price};
pub use crate::price::{
    read_pool_sqrt_price_x64, read_pool_tick_current, read_pool_token_mint_0, sqrt_price_to_price,
    sqrt_within_deviation, swap_min_out_floor, value_in_token1,
};
pub use crate::seeds;
pub use crate::tick_math::{get_sqrt_price_at_tick, MAX_TICK, MIN_TICK};

verus! {

/// `n`, kept within the range of `i32`.
pub open spec fn clamp_i32(n: int) -> int {
    if n < i32::MIN {
        i32::MIN as int
    } else if n > i32::MAX {
        i32::MAX as int
    } else {
        n
    }
}

/// Why a position range is refused, if it is. The lower tick must be below the
/// upper; the width must lie between the least and the greatest number of tick
/// spacings; and the current tick must lie strictly inside, with at least the
/// least percentage of the width on each side.
pub open spec fn range_refusal(
    tick_lower: int,
    tick_upper: int,
    tick_current: int,
    tick_spacing: int,
) -> Option<VaultError> {
    let width = tick_upper - tick_lower;
    if tick_lower >= tick_upper {
        Some(VaultError::InvalidTickRange)
    } else if {
        &&& clamp_i32(MIN_POSITION_WIDTH_SPACINGS * tick_spacing) <= width
        &&& width <= clamp_i32(MAX_POSITION_WIDTH_SPACINGS * tick_spacing)
        &&& tick_lower < tick_current < tick_upper
        &&& 100 * (tick_current - tick_lower) >= MIN_POSITION_SIDE_PCT * width
        &&& 100 * (tick_upper - tick_current) >= MIN_POSITION_SIDE_PCT * width
    } {
        None
    } else {
        Some(VaultError::InvalidPositionRange)
    }
}

/// `a * b`, kept within the range of `i32`.
fn saturating_mul_i32(a: i32, b: i32) -> (r: i32)
    ensures
        r == clamp_i32(a * b),
{
    proof {
        let x = a as int;
        let y = b as int;
        assert(-0x4000_0000_0000_0000 <= x * y <= 0x4000_0000_0000_0000) by (nonlinear_arith)
            requires
                -0x8000_0000 <= x <= 0x7fff_ffff,
                -0x8000_0000 <= y <= 0x7fff_ffff,
        ;
    }
    let n: i64 = (a as i64) * (b as i64);
    if n < i32::MIN as i64 {
        i32::MIN
    } else if n > i32::MAX as i64 {
        i32::MAX
    } else {
        n as i32
    }
}

/// Checks that a position range is neither too narrow nor too wide, straddles
/// the current price, and is not skewed to one side of it.
pub fn validate_position_range(
    tick_lower: i32,
    tick_upper: i32,
    tick_current: i32,
    tick_spacing: i32,
) -> (r: Result<(), VaultError>)
    requires
        tick_upper - tick_lower <= i32::MAX,
    ensures
        r == (match range_refusal(
            tick_lower as int,
            tick_upper as int,
            tick_current as int,
            tick_spacing as int,
        ) {
            Some(e) => Err::<(), VaultError>(e),
            None => Ok(()),
        }),
{
    if tick_lower >= tick_upper {
        return Err(VaultError::InvalidTickRange);
    }
    let width: i32 = tick_upper - tick_lower;
    if width < saturating_mul_i32(MIN_POSITION_WIDTH_SPACINGS, tick_spacing) || width
        > saturating_mul_i32(MAX_POSITION_WIDTH_SPACINGS, tick_spacing) {
        return Err(VaultError::InvalidPositionRange);
    }
    if !(tick_lower < tick_current && tick_current < tick_upper) {
        return Err(VaultError::InvalidPositionRange);
    }
    let left: i64 = (tick_current - tick_lower) as i64;
    let right: i64 = (tick_upper - tick_current) as i64;
    let least: i64 = (width as i64) * MIN_POSITION_SIDE_PCT;
    if left * 100 < least || right * 100 < least {
        return Err(VaultError::InvalidPositionRange);
    }
    Ok(())
}

/// The vault's account. There is one vault per pool.
#[derive(Clone, Copy, Debug)]
pub struct Vault {
    /// Manages positions and settings.
    pub admin: Pubkey,
    /// Mint of the vault's shares.
    pub share_mint: Pubkey,
    /// The pool that gives the price and holds the position.
    pub pool_id: Pubkey,
    /// Mint of token0.
    pub token0_mint: Pubkey,
    /// Mint of token1.
    pub token1_mint: Pubkey,
    /// Account that holds token0.
    pub token0_treasury: Pubkey,
    /// Account that holds token1.
    pub token1_treasury: Pubkey,
    /// Wallet that receives the protocol's fees.
    pub protocol_wallet: Pubkey,
    /// Shares outstanding, the dead shares among them.
    pub total_shares: u64,
    /// Token0 in the treasury, the protocol's fees among it.
    pub treasury_token0: u64,
    /// Token1 in the treasury, the protocol's fees among it.
    pub treasury_token1: u64,
    /// Decimals of token0.
    pub token0_decimals: u8,
    /// Decimals of token1.
    pub token1_decimals: u8,
    /// Bump of the vault's address.
    pub bump: u8,
    /// Bump of the token0 treasury's address.
    pub token0_treasury_bump: u8,
    /// Bump of the token1 treasury's address.
    pub token1_treasury_bump: u8,
    /// Bump of the share mint's address.
    pub share_mint_bump: u8,
    /// Mint of the position's token, or zero.
    pub position_mint: Pubkey,
    /// There is a position.
    pub has_active_position: bool,
    /// Token0 in the position, as last recorded.
    pub position_token0: u64,
    /// Token1 in the position, as last recorded.
    pub position_token1: u64,
    /// Liquidity of the position.
    pub position_liquidity: u128,
    /// Lower tick of the position.
    pub position_tick_lower: i32,
    /// Upper tick of the position.
    pub position_tick_upper: i32,
    /// Deposits, and withdrawals from the treasury, are disabled.
    pub is_paused: bool,
    /// One position has been closed and the next is not open yet.
    pub is_rebalancing: bool,
    /// Who has been proposed as admin, or zero.
    pub pending_admin: Pubkey,
    /// Token0 that belongs to the protocol.
    pub accumulated_protocol_fees_token0: u64,
    /// Token1 that belongs to the protocol.
    pub accumulated_protocol_fees_token1: u64,
    /// When the rebalance started, or zero.
    pub rebalance_started_at: i64,
    /// Key for automated operations.
    pub operator: Pubkey,
    /// When the current swap window started.
    pub swap_window_start: i64,
    /// Swap volume of the current window, in token1 units of the pool.
    pub swap_volume_in_window: u64,
    /// Slot of the last fee collection.
    pub last_fee_collection_slot: u64,
    /// Time of the last treasury swap.
    pub last_swap_at: i64,
}

/// A vault account with nothing in it.
pub open spec fn empty_vault() -> Vault {
    Vault {
        admin: no_key(),
        share_mint: no_key(),
        pool_id: no_key(),
        token0_mint: no_key(),
        token1_mint: no_key(),
        token0_treasury: no_key(),
        token1_treasury: no_key(),
        protocol_wallet: no_key(),
        total_shares: 0,
        treasury_token0: 0,
        treasury_token1: 0,
        token0_decimals: 0,
        token1_decimals: 0,
        bump: 0,
        token0_treasury_bump: 0,
        token1_treasury_bump: 0,
        share_mint_bump: 0,
        position_mint: no_key(),
        has_active_position: false,
        position_token0: 0,
        position_token1: 0,
        position_liquidity: 0,
        position_tick_lower: 0,
        position_tick_upper: 0,
        is_paused: false,
        is_rebalancing: false,
        pending_admin: no_key(),
        accumulated_protocol_fees_token0: 0,
        accumulated_protocol_fees_token1: 0,
        rebalance_started_at: 0,
        operator: no_key(),
        swap_window_start: 0,
        swap_volume_in_window: 0,
        last_fee_collection_slot: 0,
        last_swap_at: 0,
    }
}

impl Default for Vault {
    fn default() -> (r: Vault)
        ensures
            r == empty_vault(),
    {
        let none: Pubkey = Pubkey::default();
        Vault {
            admin: none,
            share_mint: none,
            pool_id: none,
            token0_mint: none,
            token1_mint: none,
            token0_treasury: none,
            token1_treasury: none,
            protocol_wallet: none,
            total_shares: 0,
            treasury_token0: 0,
            treasury_token1: 0,
            token0_decimals: 0,
            token1_decimals: 0,
            bump: 0,
            token0_treasury_bump: 0,
            token1_treasury_bump: 0,
            share_mint_bump: 0,
            position_mint: none,
            has_active_position: false,
            position_token0: 0,
            position_token1: 0,
            position_liquidity: 0,
            position_tick_lower: 0,
            position_tick_upper: 0,
            is_paused: false,
            is_rebalancing: false,
            pending_admin: none,
            accumulated_protocol_fees_token0: 0,
            accumulated_protocol_fees_token1: 0,
            rebalance_started_at: 0,
            operator: none,
            swap_window_start: 0,
            swap_volume_in_window: 0,
            last_fee_collection_slot: 0,
            last_swap_at: 0,
        }
    }
}

/// What is left of `held` and `placed` together once `fees` are set aside. The
/// sum saturates at 64 bits.
pub open spec fn user_amount(held: int, placed: int, fees: int) -> int {
    monus(clamp_u64(held + placed) as int, fees)
}

/// `amount` raw units of a token at `price` per whole token, rounded down. A
/// value beyond 64 bits counts as zero.
pub open spec fn value_at(amount: int, price: int, decimals: int) -> u64 {
    fit_u64_or_zero(amount * price / pow10(decimals))
}

/// Shares for a deposit of `value` into a vault worth `tvl`: in proportion, and
/// rounded down. A vault that is worth nothing, has no shares but the dead ones,
/// or would mint more than 64 bits hold, starts afresh at one share per unit.
pub open spec fn shares_for(value: int, total_shares: int, tvl: int) -> int {
    if total_shares <= DEAD_SHARES || tvl == 0 || value * total_shares / tvl > u64::MAX {
        value
    } else {
        value * total_shares / tvl
    }
}

/// The part of `total` that `shares` of `total_shares` stand for, rounded down.
pub open spec fn pro_rata(total: int, shares: int, total_shares: int) -> int {
    total * shares / total_shares
}

/// The number of shares for a deposit fits in 64 bits.
pub proof fn lemma_shares_for_fits(value: u64, total_shares: u64, tvl: u64)
    ensures
        0 <= shares_for(value as int, total_shares as int, tvl as int) <= u64::MAX,
{
    if tvl != 0 {
        lemma_mul_u64(value, total_shares);
        crate::math::lemma_div_bounds(value * total_shares, tvl as int);
    }
}

/// Shares for a deposit of `value` at `total_shares` outstanding and a vault
/// worth `tvl`.
pub fn shares_for_deposit(value: u64, total_shares: u64, tvl: u64) -> (r: u64)
    ensures
        r == shares_for(value as int, total_shares as int, tvl as int),
{
    if total_shares <= DEAD_SHARES || tvl == 0 {
        return value;
    }
    proof {
        lemma_mul_u64(value, total_shares);
        crate::math::lemma_div_bounds(value * total_shares, tvl as int);
    }
    match mul_div(value, total_shares, tvl as u128) {
        Some(shares) => shares,
        None => value,
    }
}

impl Vault {
    /// Length of a vault account, with its discriminator.
    pub const LEN: usize = 489;

    /// The vault's worth to its holders in token1 units, with the given amounts
    /// in the position. The protocol's fees do not count.
    pub open spec fn tvl(self, price: int, position_token0: int, position_token1: int) -> u64 {
        let token0 = user_amount(
            self.treasury_token0 as int,
            position_token0,
            self.accumulated_protocol_fees_token0 as int,
        );
        let token1 = user_amount(
            self.treasury_token1 as int,
            position_token1,
            self.accumulated_protocol_fees_token1 as int,
        );
        clamp_u64(value_at(token0, price, self.token0_decimals as int) + token1)
    }

    /// The vault's worth in token1 units, with the position as last recorded.
    pub fn calculate_tvl(&self, token0_price_in_token1: u64) -> (r: u64)
        requires
            self.token0_decimals <= 38,
        ensures
            r == self.tvl(
                token0_price_in_token1 as int,
                self.position_token0 as int,
                self.position_token1 as int,
            ),
    {
        self.calculate_tvl_with_position(
            token0_price_in_token1,
            self.position_token0,
            self.position_token1,
        )
    }

    /// The vault's worth in token1 units, with the real amounts in the position.
    pub fn calculate_tvl_with_position(
        &self,
        token0_price_in_token1: u64,
        position_token0: u64,
        position_token1: u64,
    ) -> (r: u64)
        requires
            self.token0_decimals <= 38,
        ensures
            r == self.tvl(
                token0_price_in_token1 as int,
                position_token0 as int,
                position_token1 as int,
            ),
    {
        let user_token0: u64 = self.treasury_token0.saturating_add(position_token0).saturating_sub(
            self.accumulated_protocol_fees_token0,
        );
        let user_token1: u64 = self.treasury_token1.saturating_add(position_token1).saturating_sub(
            self.accumulated_protocol_fees_token1,
        );
        self.token0_to_token1(user_token0, token0_price_in_token1).saturating_add(user_token1)
    }

    /// Shares to mint for a deposit. It never fails: see `shares_for`.
    pub fn calculate_shares_to_mint(&self, deposit_value: u64, current_tvl: u64) -> (r: Result<
        u64,
        VaultError,
    >)
        ensures
            r == Ok::<u64, VaultError>(
                shares_for(deposit_value as int, self.total_shares as int, current_tvl as int) as u64,
            ),
    {
        Ok(shares_for_deposit(deposit_value, self.total_shares, current_tvl))
    }

    /// Token1 value of `shares` at the given worth of the vault.
    pub fn calculate_withdrawal_value(&self, shares: u64, current_tvl: u64) -> (r: Result<
        u64,
        VaultError,
    >)
        ensures
            r == (if self.total_shares == 0 {
                Ok::<u64, VaultError>(0)
            } else {
                match fit_u64(pro_rata(current_tvl as int, shares as int, self.total_shares as int)) {
                    Some(v) => Ok::<u64, VaultError>(v),
                    None => Err::<u64, VaultError>(VaultError::MathOverflow),
                }
            }),
    {
        if self.total_shares == 0 {
            return Ok(0);
        }
        match mul_div(current_tvl, shares, self.total_shares as u128) {
            Some(v) => Ok(v),
            None => Err(VaultError::MathOverflow),
        }
    }

    /// Converts an amount of token0 to token1 units at the pool's price.
    pub fn token0_to_token1(&self, amount: u64, token0_price_in_token1: u64) -> (r: u64)
        requires
            self.token0_decimals <= 38,
        ensures
            r == value_at(
                amount as int,
                token0_price_in_token1 as int,
                self.token0_decimals as int,
            ),
    {
        let scale: u128 = power_of_ten(self.token0_decimals);
        or_zero(mul_div(amount, token0_price_in_token1, scale))
    }

    /// Token0 in the treasury that belongs to the holders.
    pub open spec fn user_token0(self) -> int {
        monus(self.treasury_token0 as int, self.accumulated_protocol_fees_token0 as int)
    }

    /// Token1 in the treasury that belongs to the holders.
    pub open spec fn user_token1(self) -> int {
        monus(self.treasury_token1 as int, self.accumulated_protocol_fees_token1 as int)
    }

    /// Token0 in the treasury that belongs to the holders.
    pub fn user_treasury_token0(&self) -> (r: u64)
        ensures
            r == self.user_token0(),
    {
        self.treasury_token0.saturating_sub(self.accumulated_protocol_fees_token0)
    }

    /// Token1 in the treasury that belongs to the holders.
    pub fn user_treasury_token1(&self) -> (r: u64)
        ensures
            r == self.user_token1(),
    {
        self.treasury_token1.saturating_sub(self.accumulated_protocol_fees_token1)
    }

    /// `key` may run operational actions: the operator and the admin may.
    pub open spec fn operates(self, key: Pubkey) -> bool {
        key == self.operator || key == self.admin
    }

    /// Tells whether `key` may rebalance, collect fees and swap.
    pub fn is_operator(&self, key: &Pubkey) -> (r: bool)
        ensures
            r == self.operates(*key),
    {
        *key == self.operator || *key == self.admin
    }

    /// The treasury covers the protocol's fees that are recorded as part of it.
    pub open spec fn covers_fees(self) -> bool {
        &&& self.accumulated_protocol_fees_token0 <= self.treasury_token0
        &&& self.accumulated_protocol_fees_token1 <= self.treasury_token1
    }
}

/// What a depositor has put into a vault.
#[derive(Clone, Copy, Debug)]
pub struct UserDeposit {
    /// The depositor.
    pub user: Pubkey,
    /// The vault.
    pub vault: Pubkey,
    /// Shares minted less shares burned.
    pub shares: u64,
    /// Token0 deposited over time.
    pub total_deposited_token0: u64,
    /// Token1 deposited over time.
    pub total_deposited_token1: u64,
    /// Value withdrawn over time.
    pub total_withdrawn_value: u64,
    /// When the record was created, or zero.
    pub created_at: i64,
    /// When the record last changed.
    pub updated_at: i64,
    /// Bump of the record's address.
    pub bump: u8,
}

/// A deposit record with nothing in it.
pub open spec fn empty_user_deposit() -> UserDeposit {
    UserDeposit {
        user: no_key(),
        vault: no_key(),
        shares: 0,
        total_deposited_token0: 0,
        total_deposited_token1: 0,
        total_withdrawn_value: 0,
        created_at: 0,
        updated_at: 0,
        bump: 0,
    }
}

impl Default for UserDeposit {
    fn default() -> (r: UserDeposit)
        ensures
            r == empty_user_deposit(),
    {
        UserDeposit {
            user: Pubkey::default(),
            vault: Pubkey::default(),
            shares: 0,
            total_deposited_token0: 0,
            total_deposited_token1: 0,
            total_withdrawn_value: 0,
            created_at: 0,
            updated_at: 0,
            bump: 0,
        }
    }
}

impl UserDeposit {
    /// Length of a deposit record's account, with its discriminator.
    pub const LEN: usize = 121;
}

} // verus!
