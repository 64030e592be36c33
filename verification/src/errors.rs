//! Error codes of the pool protection rules.

use vstd::prelude::*;

verus! {

/// Why an operation was refused. A refused operation leaves the pool unchanged.
#[derive(Clone, Copy, Debug, PartialEq, Eq, Structural)]
pub enum ErrorCode {
    InvalidAmount,
    Overflow,
    Underflow,
    FeeOverflow,
    RateLimitOverflow,
    InvalidDecimalCalculation,
    InsufficientLiquidity,
    InsufficientBalance,
    InsufficientPoolBalance,
    InvalidBalance,
    PriceImpactTooHigh,
    SlippageExceeded,
    NoFeesAvailable,
    FeeTiersLocked,
    FeeTiersNotLocked,
    NoPendingUpdate,
    TimelockNotExpired,
    InvalidEmergencyAdmin,
    EmergencyPaused,
    PoolPaused,
    PoolNotPaused,
    PoolFinalized,
    PoolAlreadyStarted,
    InvalidStateTransition,
    CircuitBreakerCooldown,
    CircuitBreakerTriggered,
    InvalidNewAdmin,
    VolumeLimitExceeded,
    DailyVolumeLimitExceeded,
    RateLimitExceeded,
    InvalidTokenMint,
    InvalidTokenDecimals,
    TokenMintHasFreezeAuthority,
    InvalidTokenAccount,
    TokenAccountDelegated,
    InvalidFeeTier,
    TooManyFeeTiers,
    InvalidFeeTierSpacing,
    FeeTooLow,
    FeeTooHigh,
    DuplicateFeeTierThreshold,
    InvalidParameterRelationship,
    TradeTooSmall,
    TradeTooLarge,
    TraderBlacklisted,
    TraderAlreadyBlacklisted,
    TraderNotBlacklisted,
    InvalidTrader,
    BlacklistFull,
    ReentrancyDetected,
    Unauthorized,
    InvalidPoolAuthority,
    InvalidTimestamp,
}

} // verus!
