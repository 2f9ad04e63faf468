//! Why an instruction is refused.

use vstd::prelude::*;

verus! {

/// The reasons for which the vault refuses an instruction.
#[derive(Clone, Copy, Debug, PartialEq, Eq, Structural)]
pub enum VaultError {
    /// Only the admin (or, where allowed, the operator) may do this.
    Unauthorized,
    /// An amount must be greater than zero.
    InvalidAmount,
    /// There are no shares to redeem.
    InsufficientShares,
    /// The treasury holds too little.
    InsufficientTreasuryBalance,
    /// A result does not fit its type.
    MathOverflow,
    /// A token account or mint is not the expected one.
    InvalidMint,
    /// The vault is paused.
    VaultPaused,
    /// The vault is between closing one position and opening the next.
    RebalancingInProgress,
    /// The entitlement exceeds what the treasury has for its holders.
    WithdrawalExceedsTreasury,
    /// There is a position, or one with liquidity, already.
    PositionAlreadyExists,
    /// There is no position.
    NoActivePosition,
    /// The position account is not the vault's.
    InvalidPosition,
    /// Nobody has been proposed as admin.
    NoPendingAdmin,
    /// No protocol fees have accumulated.
    NoFeesToExtract,
    /// The lower tick is not below the upper one.
    InvalidTickRange,
    /// A deposit is below the minimum.
    DepositTooSmall,
    /// There is no rebalance to cancel.
    NotRebalancing,
    /// The pool or its oracle is not the vault's, or gives no price.
    InvalidPriceFeed,
    /// The slippage asked for exceeds the maximum.
    SlippageTooHigh,
    /// The output is below the minimum asked for.
    SlippageExceeded,
    /// The spot price deviates too far from the reference.
    PriceManipulationDetected,
    /// A swap exceeds the volume allowed in the window.
    SwapVolumeExceeded,
    /// The oracle has no usable history.
    OracleUnavailable,
    /// A position range is too narrow, too wide or off centre.
    InvalidPositionRange,
    /// Fees have not been collected in the same slot.
    FeesNotCollected,
    /// Too little time has passed since the last swap.
    SwapCooldownActive,
    /// There are no reward tokens to extract.
    NoRewardsToExtract,
    /// An argument is not allowed.
    InvalidArgument,
    /// The recorded value is too old to price a deposit.
    StaleTvl,
    /// A price must be greater than zero.
    InvalidSolPrice,
    /// The recorded value may not change this much at once.
    TvlChangeExceeded,
    /// An account does not meet a constraint that has no error of its own.
    ConstraintRaw,
}

/// An outcome from a reason for refusal, if there is one.
pub open spec fn outcome(refusal: Option<VaultError>) -> Result<(), VaultError> {
    match refusal {
        Some(e) => Err(e),
        None => Ok(()),
    }
}

} // verus!
