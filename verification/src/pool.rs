//! Creating a pool, its liquidity, its fees and its admin.

use vstd::prelude::*;
use crate::address::Address;
use crate::constants::{
    BPS_DENOMINATOR, DEFAULT_CIRCUIT_BREAKER_SECONDS, DEFAULT_CIRCUIT_BREAKER_THRESHOLD,
    DEFAULT_DAILY_VOLUME_LIMIT, DEFAULT_DECAY_RATE_BPS, DEFAULT_FEE_BPS,
    DEFAULT_MAX_PRICE_IMPACT_BPS, DEFAULT_MAX_SLIPPAGE_BPS, MAXIMUM_FEE_BPS,
    MAX_EARLY_TRADE_FEE_BPS, MAX_HOURLY_TRADES, MAX_HOURLY_TRADES_WINDOW, MAX_TRADE_COOLDOWN,
    MAX_TRADE_SIZE_BPS, MINIMUM_FEE_BPS, POOL_VERSION,
};
use crate::errors::ErrorCode;
use crate::events::PoolInitialized;
use crate::fees::{fee_tiers_error, tier_error, validate_fee_tiers};
use crate::model::PoolModel;
use crate::types::{
    CircuitBreakerSettings, FeeTier, PoolSettings, PoolState, ProtectionSettings,
    RateLimitSettings, TradeSettings, VolumeSettings,
};

verus! {

/// What is wrong with trade settings, if anything.
pub open spec fn trade_settings_error(trade: TradeSettings) -> Option<ErrorCode> {
    if trade.early_trade_fee_bps > MAX_EARLY_TRADE_FEE_BPS {
        Some(ErrorCode::FeeTooHigh)
    } else if trade.cooldown_seconds > MAX_TRADE_COOLDOWN {
        Some(ErrorCode::InvalidParameterRelationship)
    } else if trade.max_size_bps > BPS_DENOMINATOR {
        Some(ErrorCode::InvalidParameterRelationship)
    } else {
        None
    }
}

/// Checks trade settings.
pub fn check_trade_settings(trade: &TradeSettings) -> (result: Result<(), ErrorCode>)
    ensures
        result == match trade_settings_error(*trade) {
            Some(e) => Err::<(), ErrorCode>(e),
            None => Ok::<(), ErrorCode>(()),
        },
{
    if trade.early_trade_fee_bps > MAX_EARLY_TRADE_FEE_BPS {
        return Err(ErrorCode::FeeTooHigh);
    }
    if trade.cooldown_seconds > MAX_TRADE_COOLDOWN {
        return Err(ErrorCode::InvalidParameterRelationship);
    }
    if trade.max_size_bps > BPS_DENOMINATOR {
        return Err(ErrorCode::InvalidParameterRelationship);
    }
    Ok(())
}

/// What is wrong with a fallback rate, if anything.
pub open spec fn default_fee_error(default_fee_bps: Option<u16>) -> Option<ErrorCode> {
    match default_fee_bps {
        Some(bps) => if bps < MINIMUM_FEE_BPS {
            Some(ErrorCode::FeeTooLow)
        } else if bps > MAXIMUM_FEE_BPS {
            Some(ErrorCode::FeeTooHigh)
        } else {
            None
        },
        None => None,
    }
}

/// Why a pool cannot be created with these settings at `now`, if it cannot.
pub open spec fn initialize_refusal(settings: PoolSettings, fee_tiers: Seq<FeeTier>, now: i64)
    -> Option<ErrorCode> {
    if now <= 0 {
        Some(ErrorCode::InvalidTimestamp)
    } else if trade_settings_error(settings.trade) is Some {
        trade_settings_error(settings.trade)
    } else if settings.circuit_breaker.window < settings.circuit_breaker.cooldown {
        Some(ErrorCode::InvalidParameterRelationship)
    } else if default_fee_error(settings.default_fee_bps) is Some {
        default_fee_error(settings.default_fee_bps)
    } else {
        fee_tiers_error(fee_tiers)
    }
}

/// The record of a pool created with these settings at `now`: every counter
/// and timestamp of the policies at zero, no trader banned, nothing pending.
pub open spec fn initial_pool(
    pool_id: Address,
    admin: Address,
    token_mint: Address,
    token_decimals: u8,
    bump: u8,
    settings: PoolSettings,
    fee_tiers: Seq<FeeTier>,
    now: i64,
) -> PoolModel {
    PoolModel {
        admin,
        emergency_admin: admin,
        token_mint,
        token_decimals,
        is_initialized: true,
        is_paused: false,
        is_emergency_paused: false,
        is_finalized: false,
        fee_tiers_locked: false,
        is_locked: false,
        total_liquidity: 0,
        total_fees_collected: 0,
        pool_start_time: 0,
        trade: TradeSettings { last_trade_time: 0, ..settings.trade },
        rate_limit: RateLimitSettings { count: 0, last_reset: 0, ..settings.rate_limit },
        circuit_breaker: CircuitBreakerSettings { last_trigger: 0, ..settings.circuit_breaker },
        volume: VolumeSettings { current_volume: 0, last_reset: 0, ..settings.volume },
        protection: settings.protection,
        fee_tiers,
        default_fee_bps: settings.default_fee_bps,
        trader_blacklist: Set::empty(),
        pending_update: None,
        emergency_action_scheduled_time: 0,
        version: POOL_VERSION,
        last_update: now,
        last_admin_update: 0,
        instruction_counter: 0,
        bump,
        pool_id,
    }
}

/// Creates the record of a new pool. The admin is the emergency admin too
/// until that is changed.
pub fn initialize(
    pool_id: Address,
    admin: Address,
    token_mint: Address,
    token_decimals: u8,
    bump: u8,
    settings: PoolSettings,
    fee_tiers: Vec<FeeTier>,
    current_time: i64,
) -> (result: Result<(PoolState, PoolInitialized), ErrorCode>)
    ensures
        match result {
            Ok((pool, event)) => {
                &&& initialize_refusal(settings, fee_tiers@, current_time) is None
                &&& pool.wf()
                &&& pool@ =~= initial_pool(
                    pool_id,
                    admin,
                    token_mint,
                    token_decimals,
                    bump,
                    settings,
                    fee_tiers@,
                    current_time,
                )
                &&& event == (PoolInitialized { pool: pool_id, admin_pubkey: admin, ts: current_time })
            },
            Err(e) => initialize_refusal(settings, fee_tiers@, current_time) == Some(e),
        },
{
    if current_time <= 0 {
        return Err(ErrorCode::InvalidTimestamp);
    }
    check_trade_settings(&settings.trade)?;
    if settings.circuit_breaker.window < settings.circuit_breaker.cooldown {
        return Err(ErrorCode::InvalidParameterRelationship);
    }
    match settings.default_fee_bps {
        Some(bps) => {
            if (bps as u64) < MINIMUM_FEE_BPS {
                return Err(ErrorCode::FeeTooLow);
            }
            if (bps as u64) > MAXIMUM_FEE_BPS {
                return Err(ErrorCode::FeeTooHigh);
            }
        },
        None => {},
    }
    validate_fee_tiers(fee_tiers.as_slice())?;
    let pool = PoolState {
        admin,
        emergency_admin: admin,
        token_mint,
        token_decimals,
        is_initialized: true,
        is_paused: false,
        is_emergency_paused: false,
        is_finalized: false,
        fee_tiers_locked: false,
        is_locked: false,
        total_liquidity: 0,
        total_fees_collected: 0,
        pool_start_time: 0,
        trade: TradeSettings { last_trade_time: 0, ..settings.trade },
        rate_limit: RateLimitSettings { count: 0, last_reset: 0, ..settings.rate_limit },
        circuit_breaker: CircuitBreakerSettings { last_trigger: 0, ..settings.circuit_breaker },
        volume: VolumeSettings { current_volume: 0, last_reset: 0, ..settings.volume },
        protection: settings.protection,
        fee_tiers,
        default_fee_bps: settings.default_fee_bps,
        trader_blacklist: Vec::new(),
        pending_update: None,
        emergency_action_scheduled_time: 0,
        version: POOL_VERSION,
        last_update: current_time,
        last_admin_update: 0,
        instruction_counter: 0,
        bump,
        pool_id,
    };
    assert(pool.trader_blacklist@.to_set() =~= Set::<Address>::empty());
    Ok((pool, PoolInitialized { pool: pool_id, admin_pubkey: admin, ts: current_time }))
}

/// The settings that a pool starts with unless it is given others.
pub open spec fn default_settings() -> PoolSettings {
    PoolSettings {
        trade: TradeSettings {
            max_size_bps: MAX_TRADE_SIZE_BPS,
            min_size: 1,
            cooldown_seconds: 0,
            last_trade_time: 0,
            early_trade_fee_bps: MAX_EARLY_TRADE_FEE_BPS,
            early_trade_window_seconds: 0,
        },
        rate_limit: RateLimitSettings {
            window_seconds: MAX_HOURLY_TRADES_WINDOW,
            count: 0,
            max_calls: MAX_HOURLY_TRADES,
            last_reset: 0,
        },
        circuit_breaker: CircuitBreakerSettings {
            threshold: DEFAULT_CIRCUIT_BREAKER_THRESHOLD,
            window: DEFAULT_CIRCUIT_BREAKER_SECONDS,
            cooldown: DEFAULT_CIRCUIT_BREAKER_SECONDS,
            last_trigger: 0,
        },
        volume: VolumeSettings {
            daily_limit: DEFAULT_DAILY_VOLUME_LIMIT,
            current_volume: 0,
            last_reset: 0,
            decay_rate: DEFAULT_DECAY_RATE_BPS,
        },
        protection: ProtectionSettings {
            max_price_impact: DEFAULT_MAX_PRICE_IMPACT_BPS,
            max_slippage: DEFAULT_MAX_SLIPPAGE_BPS,
            blacklist_enabled: true,
            min_liquidity: 0,
        },
        default_fee_bps: None,
    }
}

/// Settings with every number zero and every switch off.
pub open spec fn unset_settings() -> PoolSettings {
    PoolSettings {
        trade: TradeSettings {
            max_size_bps: 0,
            min_size: 0,
            cooldown_seconds: 0,
            last_trade_time: 0,
            early_trade_fee_bps: 0,
            early_trade_window_seconds: 0,
        },
        rate_limit: RateLimitSettings { window_seconds: 0, count: 0, max_calls: 0, last_reset: 0 },
        circuit_breaker: CircuitBreakerSettings {
            threshold: 0,
            window: 0,
            cooldown: 0,
            last_trigger: 0,
        },
        volume: VolumeSettings { daily_limit: 0, current_volume: 0, last_reset: 0, decay_rate: 0 },
        protection: ProtectionSettings {
            max_price_impact: 0,
            max_slippage: 0,
            blacklist_enabled: false,
            min_liquidity: 0,
        },
        default_fee_bps: None,
    }
}

/// The fee schedule that a pool starts with unless it is given another.
pub open spec fn default_fee_tiers() -> Seq<FeeTier> {
    seq![FeeTier { volume_threshold: 0, fee_bps: DEFAULT_FEE_BPS }]
}

impl PoolSettings {
    /// The settings that a pool starts with unless it is given others.
    pub fn standard() -> (settings: PoolSettings)
        ensures
            settings == default_settings(),
    {
        PoolSettings {
            trade: TradeSettings {
                max_size_bps: MAX_TRADE_SIZE_BPS,
                min_size: 1,
                cooldown_seconds: 0,
                last_trade_time: 0,
                early_trade_fee_bps: MAX_EARLY_TRADE_FEE_BPS,
                early_trade_window_seconds: 0,
            },
            rate_limit: RateLimitSettings {
                window_seconds: MAX_HOURLY_TRADES_WINDOW,
                count: 0,
                max_calls: MAX_HOURLY_TRADES,
                last_reset: 0,
            },
            circuit_breaker: CircuitBreakerSettings {
                threshold: DEFAULT_CIRCUIT_BREAKER_THRESHOLD,
                window: DEFAULT_CIRCUIT_BREAKER_SECONDS,
                cooldown: DEFAULT_CIRCUIT_BREAKER_SECONDS,
                last_trigger: 0,
            },
            volume: VolumeSettings {
                daily_limit: DEFAULT_DAILY_VOLUME_LIMIT,
                current_volume: 0,
                last_reset: 0,
                decay_rate: DEFAULT_DECAY_RATE_BPS,
            },
            protection: ProtectionSettings {
                max_price_impact: DEFAULT_MAX_PRICE_IMPACT_BPS,
                max_slippage: DEFAULT_MAX_SLIPPAGE_BPS,
                blacklist_enabled: true,
                min_liquidity: 0,
            },
            default_fee_bps: None,
        }
    }
}

impl PoolState {
    /// Puts every setting and the fee schedule back to what a pool starts
    /// with. The counters of the policies start anew; identities, balances,
    /// flags, the blacklist and a pending update stay.
    pub fn initialize_default(&mut self) -> (result: Result<(), ErrorCode>)
        requires
            old(self).wf(),
        ensures
            final(self).wf(),
            result == Ok::<(), ErrorCode>(()),
            final(self)@ =~= (PoolModel {
                trade: default_settings().trade,
                rate_limit: default_settings().rate_limit,
                circuit_breaker: default_settings().circuit_breaker,
                volume: default_settings().volume,
                protection: default_settings().protection,
                default_fee_bps: default_settings().default_fee_bps,
                fee_tiers: default_fee_tiers(),
                ..old(self)@
            }),
            final(self).trader_blacklist == old(self).trader_blacklist,
    {
        let settings = PoolSettings::standard();
        self.trade = settings.trade;
        self.rate_limit = settings.rate_limit;
        self.circuit_breaker = settings.circuit_breaker;
        self.volume = settings.volume;
        self.protection = settings.protection;
        self.default_fee_bps = settings.default_fee_bps;
        self.fee_tiers = vec![FeeTier { volume_threshold: 0, fee_bps: DEFAULT_FEE_BPS }];
        assert(self.fee_tiers@ =~= default_fee_tiers());
        assert(tier_error(self.fee_tiers@, 0) is None);
        Ok(())
    }
}

impl Default for PoolState {
    /// A record with nothing set: every address zero, every number zero, no
    /// tier, no banned trader, nothing pending.
    fn default() -> (pool: PoolState)
        ensures
            pool.wf(),
            pool.admin.is_zero() && pool.emergency_admin.is_zero() && pool.token_mint.is_zero()
                && pool.pool_id.is_zero(),
            !pool.is_initialized && !pool.is_paused && !pool.is_emergency_paused
                && !pool.is_finalized && !pool.fee_tiers_locked && !pool.is_locked,
            pool.token_decimals == 0 && pool.version == 0 && pool.bump == 0,
            pool.total_liquidity == 0 && pool.total_fees_collected == 0
                && pool.instruction_counter == 0,
            pool.pool_start_time == 0 && pool.emergency_action_scheduled_time == 0
                && pool.last_update == 0 && pool.last_admin_update == 0,
            pool.trade == unset_settings().trade,
            pool.rate_limit == unset_settings().rate_limit,
            pool.circuit_breaker == unset_settings().circuit_breaker,
            pool.volume == unset_settings().volume,
            pool.protection == unset_settings().protection,
            pool.default_fee_bps == unset_settings().default_fee_bps,
            pool.fee_tiers@.len() == 0,
            pool.trader_blacklist@.len() == 0,
            pool.pending_update is None,
    {
        let zero = Address::zero();
        let pool = PoolState {
            admin: zero,
            emergency_admin: zero,
            token_mint: zero,
            token_decimals: 0,
            is_initialized: false,
            is_paused: false,
            is_emergency_paused: false,
            is_finalized: false,
            fee_tiers_locked: false,
            is_locked: false,
            total_liquidity: 0,
            total_fees_collected: 0,
            pool_start_time: 0,
            trade: TradeSettings {
                max_size_bps: 0,
                min_size: 0,
                cooldown_seconds: 0,
                last_trade_time: 0,
                early_trade_fee_bps: 0,
                early_trade_window_seconds: 0,
            },
            rate_limit: RateLimitSettings { window_seconds: 0, count: 0, max_calls: 0, last_reset: 0 },
            circuit_breaker: CircuitBreakerSettings {
                threshold: 0,
                window: 0,
                cooldown: 0,
                last_trigger: 0,
            },
            volume: VolumeSettings { daily_limit: 0, current_volume: 0, last_reset: 0, decay_rate: 0 },
            protection: ProtectionSettings {
                max_price_impact: 0,
                max_slippage: 0,
                blacklist_enabled: false,
                min_liquidity: 0,
            },
            fee_tiers: Vec::new(),
            default_fee_bps: None,
            trader_blacklist: Vec::new(),
            pending_update: None,
            emergency_action_scheduled_time: 0,
            version: 0,
            last_update: 0,
            last_admin_update: 0,
            instruction_counter: 0,
            bump: 0,
            pool_id: zero,
        };
        assert(pool.trader_blacklist@.to_set() =~= Set::<Address>::empty());
        pool
    }
}

} // verus!
