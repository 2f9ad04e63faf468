//! Fees, minimums and guard rails.

use vstd::prelude::*;

verus! {

/// Wrapped SOL: So11111111111111111111111111111111111111112.
pub const WSOL_MINT: [u8; 32] = [
    6, 155, 136, 87, 254, 171, 129, 132, 251, 104, 127, 99, 70, 24, 192, 53, 218, 196, 57, 220, 26,
    235, 59, 85, 152, 160, 240, 0, 0, 0, 0, 1,
];

/// The protocol takes one part in this many of the trading fees collected. The
/// rest stays in the treasury for the depositors.
pub const PROTOCOL_FEE_DENOMINATOR: u64 = 10;

/// Least value, in token1 units, of the first deposit into a vault. It keeps the
/// loss to the dead shares negligible.
pub const MIN_FIRST_DEPOSIT_VALUE: u64 = 100_000;

/// Least width of a position in tick spacings.
pub const MIN_POSITION_WIDTH_SPACINGS: i32 = 8;

/// Greatest width of a position in tick spacings.
pub const MAX_POSITION_WIDTH_SPACINGS: i32 = 20_000;

/// Each side of the current tick must be at least this percentage of a
/// position's width.
pub const MIN_POSITION_SIDE_PCT: i64 = 20;

/// Shares that the first deposit adds to the total without an owner, so that
/// the first depositor cannot set the share price.
pub const DEAD_SHARES: u64 = 1_000;

/// Greatest deviation of the spot square-root price from the reference for a
/// deposit, in basis points. About 5% of price.
pub const MAX_SQRT_DEVIATION_BPS: u128 = 250;

/// The same for a withdrawal. It is wider, so that volatility does not lock a
/// holder in. About 10% of price.
pub const MAX_SQRT_DEVIATION_WITHDRAW_BPS: u128 = 500;

/// Greatest slippage of a treasury swap against the reference price, in basis
/// points.
pub const MAX_SWAP_SLIPPAGE_BPS: u128 = 100;

/// Length of the window over which swap volume is limited, in seconds.
pub const SWAP_WINDOW_SECS: i64 = 3_600;

/// Greatest swap volume per window as a share of the treasury's value, in basis
/// points.
pub const MAX_SWAP_VOLUME_BPS: u128 = 10_000;

/// Least time between two treasury swaps, in seconds.
pub const SWAP_COOLDOWN_SECS: i64 = 60;

/// How long a rebalance may run before holders may withdraw regardless, in
/// seconds.
pub const EMERGENCY_WITHDRAW_SECS: i64 = 3_600;

/// Greatest slippage that an operator may ask for when adding liquidity, in
/// basis points.
pub const MAX_SLIPPAGE_BPS: u16 = 500;

/// Greatest number of decimals of a token that a vault accepts.
pub const MAX_DECIMALS: u8 = 18;

} // verus!
