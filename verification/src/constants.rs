//! Limits, timelocks and defaults of the pool protection rules.

use vstd::prelude::*;

verus! {

/// One hundred percent, in basis points.
pub const BPS_DENOMINATOR: u64 = 10000;

/// Lowest fee rate a tier or the fallback may carry, in basis points.
pub const MINIMUM_FEE_BPS: u64 = 1;

/// Highest fee rate a tier or the fallback may carry, in basis points.
pub const MAXIMUM_FEE_BPS: u64 = 1000;

/// Absolute floor of the fee charged on any trade, in token units.
pub const MINIMUM_FEE: u64 = 1;

/// Highest fee rate of the early-trade window, in basis points.
pub const MAX_EARLY_TRADE_FEE_BPS: u64 = 1000;

/// Delay between scheduling an emergency action and applying it, in seconds.
pub const EMERGENCY_TIMELOCK_SECONDS: u64 = 3600;

/// Delay between scheduling a parameter update and applying it, in seconds.
pub const PARAMETER_UPDATE_TIMELOCK: u64 = 86400;

/// Shortest time between two changes of the admin identity, in seconds.
pub const ADMIN_UPDATE_COOLDOWN: u64 = 86400;

/// Longest cooldown between trades that the settings may ask for, in seconds.
pub const MAX_TRADE_COOLDOWN: u64 = 3600;

/// Seed label of the address that holds the pool's funds.
pub const POOL_ID_SEED: [u8; 14] =
    [112, 111, 111, 108, 95, 97, 117, 116, 104, 111, 114, 105, 116, 121];

/// Fee mode code: fallback rate, no tier matched.
pub const FEE_MODE_NONE: u8 = 0;

/// Fee mode code: fixed early-trade rate.
pub const FEE_MODE_EARLY_TRADE: u8 = 1;

/// Fee mode code: rate of the matching volume tier.
pub const FEE_MODE_VOLUME_BASED: u8 = 2;

/// Most tiers a fee schedule may hold.
pub const MAX_FEE_TIERS: usize = 100;

/// Most addresses the blacklist may hold.
pub const MAX_BLACKLIST_SIZE: usize = 1000;

/// Most addresses one blacklist call may name.
pub const BATCH_BLACKLIST_MAX_SIZE: usize = 50;

/// Smallest distance between the thresholds of two consecutive tiers.
pub const MIN_FEE_TIER_SPACING_BPS: u64 = 10;

/// Largest trade at start, in basis points of the daily volume limit.
pub const MAX_TRADE_SIZE_BPS: u64 = 1000;

/// Trades admitted per rate-limit window at start.
pub const MAX_HOURLY_TRADES: u32 = 100;

/// Length of the rate-limit window at start, in seconds.
pub const MAX_HOURLY_TRADES_WINDOW: u64 = 3600;

/// Daily volume limit at start, in token units.
pub const DEFAULT_DAILY_VOLUME_LIMIT: u64 = 1_000_000_000;

/// Threshold of the circuit breaker at start, in token units.
pub const DEFAULT_CIRCUIT_BREAKER_THRESHOLD: u64 = 1_000_000;

/// Window and cooldown of the circuit breaker at start, in seconds.
pub const DEFAULT_CIRCUIT_BREAKER_SECONDS: u64 = 3600;

/// Ceiling of the price impact guard at start, in basis points.
pub const DEFAULT_MAX_PRICE_IMPACT_BPS: u64 = 500;

/// Slippage ceiling at start, in basis points.
pub const DEFAULT_MAX_SLIPPAGE_BPS: u64 = 200;

/// Rate of the single fee tier at start, in basis points.
pub const DEFAULT_FEE_BPS: u16 = 30;

/// Version written into a new pool record.
pub const POOL_VERSION: u8 = 1;

/// Seconds in one hour, the step of volume decay.
pub const SECONDS_PER_HOUR: u64 = 3600;

/// Hourly decay of tracked volume at start, in basis points: one percent.
pub const DEFAULT_DECAY_RATE_BPS: u64 = 100;

/// Idle hours after which tracked volume is fully reset.
pub const VOLUME_RESET_HOURS: u64 = 24;

} // verus!
