//! Notifications that the operations hand back for their caller to publish.

use vstd::prelude::*;
use crate::address::Address;
use crate::model::{fee_settings_view, ParameterModel};
use crate::types::{
    FeeSettingsUpdate, ProtectionSettingsUpdate, StateSettingsUpdate, TradeSettingsUpdate,
};

verus! {

/// A pool was created.
#[derive(Clone, Copy, Debug, PartialEq, Eq)]
pub struct PoolInitialized {
    pub pool: Address,
    pub admin_pubkey: Address,
    pub ts: i64,
}

/// Liquidity entered the pool.
#[derive(Clone, Copy, Debug, PartialEq, Eq)]
pub struct LiquidityAdded {
    pub pool: Address,
    pub admin_pubkey: Address,
    pub amount: u64,
    pub ts: i64,
}

/// Liquidity left the pool.
#[derive(Clone, Copy, Debug, PartialEq, Eq)]
pub struct LiquidityRemoved {
    pub pool: Address,
    pub admin_pubkey: Address,
    pub amount: u64,
    pub ts: i64,
}

/// A trade was admitted and charged.
#[derive(Clone, Copy, Debug, PartialEq, Eq)]
pub struct TradeExecuted {
    pub pool: Address,
    pub buyer_pubkey: Address,
    pub amount_in: u64,
    pub amount_out: u64,
    pub fee_amount: u64,
    pub fee_mode: u8,
    pub ts: i64,
    pub token_mint: Address,
}

/// The rate-limit window rolled over.
#[derive(Clone, Copy, Debug, PartialEq, Eq)]
pub struct RateLimitReset {
    pub pool: Address,
    pub old_count: u32,
    pub new_count: u32,
    pub ts: i64,
}

/// Tracked volume went over the breaker's threshold.
#[derive(Clone, Copy, Debug, PartialEq, Eq)]
pub struct CircuitBreakerTriggered {
    pub pool: Address,
    pub volume_24h: u64,
    pub threshold: u64,
    pub ts: i64,
}

/// An address was banned from trading.
#[derive(Clone, Copy, Debug, PartialEq, Eq)]
pub struct TraderBlacklisted {
    pub pool: Address,
    pub trader_pubkey: Address,
    pub ts: i64,
}

/// An address was allowed to trade again.
#[derive(Clone, Copy, Debug, PartialEq, Eq)]
pub struct TraderRemovedFromBlacklist {
    pub pool: Address,
    pub trader_pubkey: Address,
    pub ts: i64,
}

/// A batch of blacklist changes was made.
#[derive(Clone, Copy, Debug, PartialEq, Eq)]
pub struct BatchBlacklistCompleted {
    pub pool: Address,
    pub admin_pubkey: Address,
    pub count: u64,
    pub ts: i64,
}

/// The collected fees were paid out.
#[derive(Clone, Copy, Debug, PartialEq, Eq)]
pub struct FeesWithdrawn {
    pub pool: Address,
    pub admin_pubkey: Address,
    pub amount: u64,
    pub ts: i64,
}

/// The fee schedule was locked.
#[derive(Clone, Copy, Debug, PartialEq, Eq)]
pub struct FeeTiersLocked {
    pub pool: Address,
    pub admin_pubkey: Address,
    pub ts: i64,
}

/// An unlock of the fee schedule was scheduled.
#[derive(Clone, Copy, Debug, PartialEq, Eq)]
pub struct FeeTiersUnlockScheduled {
    pub pool: Address,
    pub admin_pubkey: Address,
    pub scheduled_time: i64,
}

/// A bundle of parameter changes was scheduled.
#[derive(Clone, Copy, Debug, PartialEq, Eq)]
pub struct ParameterUpdateScheduled {
    pub pool: Address,
    pub admin_pubkey: Address,
    pub scheduled_time: i64,
}

/// A scheduled bundle was applied.
#[derive(Clone, Copy, Debug, PartialEq, Eq)]
pub struct ParametersUpdated {
    pub pool: Address,
    pub admin_pubkey: Address,
    pub ts: i64,
}

/// An emergency pause was scheduled.
#[derive(Clone, Copy, Debug, PartialEq, Eq)]
pub struct EmergencyPauseScheduled {
    pub pool: Address,
    pub emergency_admin_pubkey: Address,
    pub scheduled_time: i64,
}

/// The emergency pause took effect.
#[derive(Clone, Copy, Debug, PartialEq, Eq)]
pub struct EmergencyPaused {
    pub pool: Address,
    pub emergency_admin_pubkey: Address,
    pub ts: i64,
}

/// The end of an emergency pause was scheduled.
#[derive(Clone, Copy, Debug, PartialEq, Eq)]
pub struct EmergencyResumeScheduled {
    pub pool: Address,
    pub emergency_admin_pubkey: Address,
    pub scheduled_time: i64,
}

/// The emergency pause ended.
#[derive(Clone, Copy, Debug, PartialEq, Eq)]
pub struct EmergencyResumed {
    pub pool: Address,
    pub emergency_admin_pubkey: Address,
    pub ts: i64,
}

/// The breaker's tracked volume was zeroed.
#[derive(Clone, Copy, Debug, PartialEq, Eq)]
pub struct CircuitBreakerReset {
    pub pool: Address,
    pub admin_pubkey: Address,
    pub ts: i64,
}

/// The admin identity changed.
#[derive(Clone, Copy, Debug, PartialEq, Eq)]
pub struct AdminUpdated {
    pub pool: Address,
    pub old_admin_pubkey: Address,
    pub new_admin_pubkey: Address,
    pub ts: i64,
}

/// A token mint was checked for a freeze authority.
#[derive(Clone, Copy, Debug, PartialEq, Eq)]
pub struct FreezeAuthorityWarning {
    pub pool: Address,
    pub token_mint: Address,
    pub ts: i64,
}

/// Trading was paused by the admin.
#[derive(Clone, Copy, Debug, PartialEq, Eq)]
pub struct PoolPaused {
    pub pool: Address,
    pub admin_pubkey: Address,
    pub ts: i64,
}

/// Trading was resumed by the admin.
#[derive(Clone, Copy, Debug, PartialEq, Eq)]
pub struct PoolResumed {
    pub pool: Address,
    pub admin_pubkey: Address,
    pub ts: i64,
}

/// Tracked volume decayed with the hours passed.
#[derive(Clone, Copy, Debug, PartialEq, Eq)]
pub struct VolumeDecayed {
    pub pool: Address,
    pub old_volume: u64,
    pub new_volume: u64,
    pub hours_passed: u64,
    pub ts: i64,
}

/// A scheduled bundle was discarded; the bundle is carried for audit.
#[derive(Clone, Debug, PartialEq, Eq)]
pub struct ParameterUpdateCancelled {
    pub pool: Address,
    pub admin_pubkey: Address,
    pub ts: i64,
    pub trade_settings: Option<TradeSettingsUpdate>,
    pub protection_settings: Option<ProtectionSettingsUpdate>,
    pub fee_settings: Option<FeeSettingsUpdate>,
    pub state_settings: Option<StateSettingsUpdate>,
}

impl ParameterUpdateCancelled {
    /// The bundle that the notification carries.
    pub open spec fn bundle(&self) -> ParameterModel {
        ParameterModel {
            trade_settings: self.trade_settings,
            protection_settings: self.protection_settings,
            fee_settings: fee_settings_view(self.fee_settings),
            state_settings: self.state_settings,
        }
    }
}

/// The admin pause was switched on or off.
#[derive(Clone, Copy, Debug, PartialEq, Eq)]
pub enum PauseToggled {
    Paused(PoolPaused),
    Resumed(PoolResumed),
}

/// The notifications of one admitted trade.
#[derive(Clone, Copy, Debug, PartialEq, Eq)]
pub struct TradeEvents {
    pub executed: TradeExecuted,
    pub rate_limit_reset: Option<RateLimitReset>,
    pub volume_decayed: Option<VolumeDecayed>,
    pub circuit_breaker: Option<CircuitBreakerTriggered>,
}

} // verus!
