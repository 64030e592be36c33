//! The pool record, its settings, and the bundles that change them.

use vstd::prelude::*;
use crate::address::Address;

verus! {

/// One step of the volume-based fee schedule.
#[derive(Clone, Copy, Debug, PartialEq, Eq, Structural)]
pub struct FeeTier {
    pub volume_threshold: u64,
    pub fee_bps: u16,
}

/// Limits on single trades and the fixed fee of the early-trade window.
#[derive(Clone, Copy, Debug, PartialEq, Eq, Structural)]
pub struct TradeSettings {
    pub max_size_bps: u64,
    pub min_size: u64,
    pub cooldown_seconds: u64,
    pub last_trade_time: i64,
    pub early_trade_fee_bps: u64,
    pub early_trade_window_seconds: u64,
}

/// Fixed-window counter of admitted trades.
#[derive(Clone, Copy, Debug, PartialEq, Eq, Structural)]
pub struct RateLimitSettings {
    pub window_seconds: u64,
    pub count: u32,
    pub max_calls: u32,
    pub last_reset: i64,
}

/// Volume threshold that halts trading, and when it last tripped.
#[derive(Clone, Copy, Debug, PartialEq, Eq, Structural)]
pub struct CircuitBreakerSettings {
    pub threshold: u64,
    pub window: u64,
    pub cooldown: u64,
    pub last_trigger: i64,
}

/// Tracked volume with its daily cap.
#[derive(Clone, Copy, Debug, PartialEq, Eq, Structural)]
pub struct VolumeSettings {
    pub daily_limit: u64,
    pub current_volume: u64,
    pub last_reset: i64,
    pub decay_rate: u64,
}

/// Ceilings of the protective guards.
#[derive(Clone, Copy, Debug, PartialEq, Eq, Structural)]
pub struct ProtectionSettings {
    pub max_price_impact: u64,
    pub max_slippage: u64,
    pub blacklist_enabled: bool,
    pub min_liquidity: u64,
}

/// The settings that a pool is created with.
#[derive(Clone, Copy, Debug, PartialEq, Eq)]
pub struct PoolSettings {
    pub trade: TradeSettings,
    pub rate_limit: RateLimitSettings,
    pub circuit_breaker: CircuitBreakerSettings,
    pub volume: VolumeSettings,
    pub protection: ProtectionSettings,
    pub default_fee_bps: Option<u16>,
}

/// Changes to the trade settings; an absent field is left as it is.
#[derive(Clone, Copy, Debug, PartialEq, Eq, Structural)]
pub struct TradeSettingsUpdate {
    pub max_size_bps: Option<u64>,
    pub min_size: Option<u64>,
    pub cooldown_seconds: Option<u64>,
    pub early_trade_fee_bps: Option<u64>,
    pub early_trade_window_seconds: Option<u64>,
}

/// New values for the protective limits.
#[derive(Clone, Copy, Debug, PartialEq, Eq, Structural)]
pub struct ProtectionSettingsUpdate {
    pub max_daily_volume: u64,
    pub max_price_impact_bps: u64,
    pub max_slippage_bps: u64,
    pub blacklist_enabled: bool,
    pub rate_limit_max: u32,
    pub rate_limit_window: u64,
    pub circuit_breaker_threshold: u64,
    pub circuit_breaker_cooldown: u64,
}

/// A new fee schedule; absent tiers leave the schedule as it is.
#[derive(Clone, Debug, PartialEq, Eq)]
pub struct FeeSettingsUpdate {
    pub fee_tiers: Option<Vec<FeeTier>>,
}

/// Changes to the lifecycle flags; an absent field is left as it is.
#[derive(Clone, Copy, Debug, PartialEq, Eq, Structural)]
pub struct StateSettingsUpdate {
    pub is_paused: Option<bool>,
    pub fee_tiers_locked: Option<bool>,
}

/// A bundle of parameter changes, one optional part per category.
#[derive(Clone, Debug, PartialEq, Eq)]
pub struct ParameterUpdate {
    pub trade_settings: Option<TradeSettingsUpdate>,
    pub protection_settings: Option<ProtectionSettingsUpdate>,
    pub fee_settings: Option<FeeSettingsUpdate>,
    pub state_settings: Option<StateSettingsUpdate>,
}

/// A bundle waiting for its timelock to expire.
#[derive(Clone, Debug, PartialEq, Eq)]
pub struct ParameterUpdateScheduled {
    pub update: ParameterUpdate,
    pub scheduled_time: i64,
}

/// The single record of a pool.
#[derive(Clone, Debug, PartialEq, Eq)]
pub struct PoolState {
    pub admin: Address,
    pub emergency_admin: Address,
    pub token_mint: Address,
    pub token_decimals: u8,
    pub is_initialized: bool,
    pub is_paused: bool,
    pub is_emergency_paused: bool,
    pub is_finalized: bool,
    pub fee_tiers_locked: bool,
    pub is_locked: bool,
    pub total_liquidity: u64,
    pub total_fees_collected: u64,
    pub pool_start_time: i64,
    pub trade: TradeSettings,
    pub rate_limit: RateLimitSettings,
    pub circuit_breaker: CircuitBreakerSettings,
    pub volume: VolumeSettings,
    pub protection: ProtectionSettings,
    pub fee_tiers: Vec<FeeTier>,
    pub default_fee_bps: Option<u16>,
    pub trader_blacklist: Vec<Address>,
    pub pending_update: Option<ParameterUpdateScheduled>,
    pub emergency_action_scheduled_time: i64,
    pub version: u8,
    pub last_update: i64,
    pub last_admin_update: i64,
    pub instruction_counter: u64,
    pub bump: u8,
    pub pool_id: Address,
}

/// What a trade paid and received.
#[derive(Clone, Copy, Debug, PartialEq, Eq, Structural)]
pub struct TradeOutcome {
    pub amount_out: u64,
    pub fee_amount: u64,
    pub fee_mode: FeeMode,
    pub price_impact: u64,
}

/// How the fee of a trade was chosen.
#[derive(Clone, Copy, Debug, PartialEq, Eq, Structural)]
pub enum FeeMode {
    Fallback,
    Fixed,
    Dynamic,
}

/// Direction of a blacklist change.
#[derive(Clone, Copy, Debug, PartialEq, Eq, Structural)]
pub enum BlacklistOperation {
    Add,
    Remove,
}

/// What the fee rules read of a token mint.
#[derive(Clone, Copy, Debug, PartialEq, Eq)]
pub struct MintInfo {
    pub key: Address,
    pub decimals: u8,
    pub freeze_authority: Option<Address>,
}

/// What the pool reads of a token account.
#[derive(Clone, Copy, Debug, PartialEq, Eq)]
pub struct TokenAccountInfo {
    pub mint: Address,
    pub delegate: Option<Address>,
}

/// The seeds with which the program signs for the pool's authority.
#[derive(Clone, Copy, Debug, PartialEq, Eq)]
pub struct SignerSeeds {
    pub label: [u8; 14],
    pub pool: Address,
    pub bump: u8,
}

impl FeeMode {
    /// Decodes a fee mode code; codes above 2 have no mode.
    pub fn from_u8(value: u8) -> (mode: Option<FeeMode>)
        ensures
            mode == Self::spec_from_u8(value),
    {
        match value {
            0 => Some(FeeMode::Fallback),
            1 => Some(FeeMode::Fixed),
            2 => Some(FeeMode::Dynamic),
            _ => None,
        }
    }

    pub open spec fn spec_from_u8(value: u8) -> Option<FeeMode> {
        if value == 0 {
            Some(FeeMode::Fallback)
        } else if value == 1 {
            Some(FeeMode::Fixed)
        } else if value == 2 {
            Some(FeeMode::Dynamic)
        } else {
            None
        }
    }
}

} // verus!
