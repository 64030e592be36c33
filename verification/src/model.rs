//! Mathematical views of the records that hold vectors.

use vstd::prelude::*;
use crate::address::Address;
use crate::types::{
    CircuitBreakerSettings, FeeSettingsUpdate, FeeTier, ParameterUpdate, ParameterUpdateScheduled,
    PoolState, ProtectionSettings, ProtectionSettingsUpdate, RateLimitSettings,
    StateSettingsUpdate, TradeSettings, TradeSettingsUpdate, VolumeSettings,
};

verus! {

/// A fee settings update with its tiers as a sequence.
#[verifier::ext_equal]
pub struct FeeSettingsModel {
    pub fee_tiers: Option<Seq<FeeTier>>,
}

/// A bundle of parameter changes with its tiers as a sequence.
#[verifier::ext_equal]
pub struct ParameterModel {
    pub trade_settings: Option<TradeSettingsUpdate>,
    pub protection_settings: Option<ProtectionSettingsUpdate>,
    pub fee_settings: Option<FeeSettingsModel>,
    pub state_settings: Option<StateSettingsUpdate>,
}

/// A scheduled bundle with its tiers as a sequence.
#[verifier::ext_equal]
pub struct PendingModel {
    pub update: ParameterModel,
    pub scheduled_time: i64,
}

/// The pool record with its fee schedule as a sequence and its blacklist as a set.
#[verifier::ext_equal]
pub struct PoolModel {
    pub admin: Address,
    pub emergency_admin: Address,
    pub token_mint: Address,
    pub token_decimals: u8,
    pub is_initialized: bool,
    pub is_paused: bool,
    pub is_emergency_paused: bool,
    pub is_finalized: bool,
    pub fee_tiers_locked: bool,
    pub is_locked: bool,
    pub total_liquidity: u64,
    pub total_fees_collected: u64,
    pub pool_start_time: i64,
    pub trade: TradeSettings,
    pub rate_limit: RateLimitSettings,
    pub circuit_breaker: CircuitBreakerSettings,
    pub volume: VolumeSettings,
    pub protection: ProtectionSettings,
    pub fee_tiers: Seq<FeeTier>,
    pub default_fee_bps: Option<u16>,
    pub trader_blacklist: Set<Address>,
    pub pending_update: Option<PendingModel>,
    pub emergency_action_scheduled_time: i64,
    pub version: u8,
    pub last_update: i64,
    pub last_admin_update: i64,
    pub instruction_counter: u64,
    pub bump: u8,
    pub pool_id: Address,
}

/// Optional tiers as an optional sequence.
pub open spec fn tiers_view(tiers: Option<Vec<FeeTier>>) -> Option<Seq<FeeTier>> {
    match tiers {
        Some(v) => Some(v@),
        None => None,
    }
}

impl View for FeeSettingsUpdate {
    type V = FeeSettingsModel;

    open spec fn view(&self) -> FeeSettingsModel {
        FeeSettingsModel { fee_tiers: tiers_view(self.fee_tiers) }
    }
}

/// An optional fee settings update as its view.
pub open spec fn fee_settings_view(fee: Option<FeeSettingsUpdate>) -> Option<FeeSettingsModel> {
    match fee {
        Some(f) => Some(f@),
        None => None,
    }
}

impl View for ParameterUpdate {
    type V = ParameterModel;

    open spec fn view(&self) -> ParameterModel {
        ParameterModel {
            trade_settings: self.trade_settings,
            protection_settings: self.protection_settings,
            fee_settings: fee_settings_view(self.fee_settings),
            state_settings: self.state_settings,
        }
    }
}

impl View for ParameterUpdateScheduled {
    type V = PendingModel;

    open spec fn view(&self) -> PendingModel {
        PendingModel { update: self.update@, scheduled_time: self.scheduled_time }
    }
}

/// An optional scheduled bundle as its view.
pub open spec fn pending_view(pending: Option<ParameterUpdateScheduled>) -> Option<PendingModel> {
    match pending {
        Some(p) => Some(p@),
        None => None,
    }
}

impl View for PoolState {
    type V = PoolModel;

    open spec fn view(&self) -> PoolModel {
        PoolModel {
            admin: self.admin,
            emergency_admin: self.emergency_admin,
            token_mint: self.token_mint,
            token_decimals: self.token_decimals,
            is_initialized: self.is_initialized,
            is_paused: self.is_paused,
            is_emergency_paused: self.is_emergency_paused,
            is_finalized: self.is_finalized,
            fee_tiers_locked: self.fee_tiers_locked,
            is_locked: self.is_locked,
            total_liquidity: self.total_liquidity,
            total_fees_collected: self.total_fees_collected,
            pool_start_time: self.pool_start_time,
            trade: self.trade,
            rate_limit: self.rate_limit,
            circuit_breaker: self.circuit_breaker,
            volume: self.volume,
            protection: self.protection,
            fee_tiers: self.fee_tiers@,
            default_fee_bps: self.default_fee_bps,
            trader_blacklist: self.trader_blacklist@.to_set(),
            pending_update: pending_view(self.pending_update),
            emergency_action_scheduled_time: self.emergency_action_scheduled_time,
            version: self.version,
            last_update: self.last_update,
            last_admin_update: self.last_admin_update,
            instruction_counter: self.instruction_counter,
            bump: self.bump,
            pool_id: self.pool_id,
        }
    }
}

} // verus!
