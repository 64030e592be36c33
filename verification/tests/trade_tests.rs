use hoe_dex_protection::events::{
    CircuitBreakerTriggered, RateLimitReset, TradeEvents, TradeExecuted, VolumeDecayed,
};
use hoe_dex_protection::trade::{check_trade_limits, price_trade};
use hoe_dex_protection::{
    add_liquidity, blacklist_trader, execute_trade, initialize, toggle_pause,
    validate_trade_parameters, Address, ErrorCode, FeeMode, FeeTier, PoolSettings, PoolState,
    TradeOutcome,
};

const START: i64 = 1_700_000_000;

fn trade_admin() -> Address {
    Address::new([2u8; 32])
}

fn buyer() -> Address {
    Address::new([5u8; 32])
}

fn trade_pool_with(liquidity: u64, tiers: Vec<FeeTier>) -> PoolState {
    let mut settings = PoolSettings::standard();
    settings.trade.early_trade_fee_bps = 500;
    settings.trade.early_trade_window_seconds = 300;
    settings.trade.min_size = 100;
    let (mut pool, _) = initialize(
        Address::new([1u8; 32]),
        trade_admin(),
        Address::new([3u8; 32]),
        6,
        254,
        settings,
        tiers,
        START - 10,
    )
    .unwrap();
    add_liquidity(&mut pool, &trade_admin(), liquidity, START).unwrap();
    pool
}

fn trade_pool() -> PoolState {
    trade_pool_with(1_000_000, vec![FeeTier { volume_threshold: 0, fee_bps: 30 }])
}

fn settled_pool() -> PoolState {
    let mut pool = trade_pool();
    pool.rate_limit.last_reset = START;
    pool.volume.last_reset = START;
    pool
}

#[test]
fn early_trade_charges_the_fixed_fee() {
    let mut pool = trade_pool();
    assert_eq!(pool.pool_start_time, START);
    let (outcome, events) = execute_trade(&mut pool, &buyer(), 1_000, 0, START + 100).unwrap();
    assert_eq!(
        outcome,
        TradeOutcome { amount_out: 950, fee_amount: 50, fee_mode: FeeMode::Fixed, price_impact: 10 }
    );
    assert_eq!(
        events.executed,
        TradeExecuted {
            pool: pool.pool_id,
            buyer_pubkey: buyer(),
            amount_in: 1_000,
            amount_out: 950,
            fee_amount: 50,
            fee_mode: 1,
            ts: START + 100,
            token_mint: pool.token_mint,
        }
    );
    assert_eq!(pool.total_fees_collected, 50);
    assert_eq!(pool.total_liquidity, 1_000_000);
    assert_eq!(pool.volume.current_volume, 1_000);
    assert_eq!(pool.rate_limit.count, 1);
    assert_eq!(pool.trade.last_trade_time, START + 100);
    assert!(!pool.is_locked);
    assert!(pool.is_well_formed());
}

#[test]
fn first_trade_reports_window_start_and_decay() {
    let mut pool = trade_pool();
    let (_, events) = execute_trade(&mut pool, &buyer(), 1_000, 0, START + 100).unwrap();
    assert_eq!(
        events.rate_limit_reset,
        Some(RateLimitReset { pool: pool.pool_id, old_count: 0, new_count: 0, ts: START + 100 })
    );
    assert_eq!(
        events.volume_decayed,
        Some(VolumeDecayed {
            pool: pool.pool_id,
            old_volume: 0,
            new_volume: 0,
            hours_passed: 472_222,
            ts: START + 100,
        })
    );
    assert_eq!(events.circuit_breaker, None);
    assert_eq!(pool.rate_limit.last_reset, START + 100);
    assert_eq!(pool.volume.last_reset, START + 100);
    let (_, events) = execute_trade(&mut pool, &buyer(), 1_000, 0, START + 200).unwrap();
    assert_eq!(events.rate_limit_reset, None);
    assert_eq!(events.volume_decayed, None);
    assert_eq!(pool.rate_limit.count, 2);
    assert_eq!(pool.volume.current_volume, 2_000);
    assert_eq!(pool.total_fees_collected, 100);
}

#[test]
fn blacklisted_trader_is_refused_whatever_the_amount() {
    let mut pool = trade_pool();
    blacklist_trader(&mut pool, &trade_admin(), buyer(), START).unwrap();
    let before = pool.clone();
    for amount in [0u64, 1, 99, 1_000, 60_000, 100_000_001, u64::MAX] {
        assert_eq!(
            execute_trade(&mut pool, &buyer(), amount, 0, START + 100).map(|_| ()),
            Err(ErrorCode::TraderBlacklisted)
        );
        assert_eq!(
            execute_trade(&mut pool, &buyer(), amount, u64::MAX, 0).map(|_| ()),
            Err(ErrorCode::TraderBlacklisted)
        );
    }
    assert_eq!(pool, before);
    assert!(execute_trade(&mut pool, &Address::new([6u8; 32]), 1_000, 0, START + 100).is_ok());
    pool.protection.blacklist_enabled = false;
    assert!(execute_trade(&mut pool, &buyer(), 1_000, 0, START + 100).is_ok());
}

#[test]
fn trade_within_cooldown_is_refused_and_changes_nothing() {
    let mut pool = trade_pool();
    pool.trade.cooldown_seconds = 60;
    assert!(execute_trade(&mut pool, &buyer(), 1_000, 0, START + 100).is_ok());
    let before = pool.clone();
    assert_eq!(
        execute_trade(&mut pool, &buyer(), 1_000, 0, START + 100).map(|_| ()),
        Err(ErrorCode::RateLimitExceeded)
    );
    assert_eq!(
        execute_trade(&mut pool, &Address::new([6u8; 32]), 2_000, 0, START + 159).map(|_| ()),
        Err(ErrorCode::RateLimitExceeded)
    );
    assert_eq!(pool, before);
    assert!(execute_trade(&mut pool, &buyer(), 1_000, 0, START + 160).is_ok());
    assert_eq!(pool.rate_limit.count, 2);
}

#[test]
fn rate_limit_refuses_the_call_over_the_limit() {
    let mut pool = trade_pool();
    pool.rate_limit.max_calls = 2;
    assert!(execute_trade(&mut pool, &buyer(), 1_000, 0, START + 100).is_ok());
    assert!(execute_trade(&mut pool, &buyer(), 1_000, 0, START + 101).is_ok());
    let before = pool.clone();
    assert_eq!(
        execute_trade(&mut pool, &buyer(), 1_000, 0, START + 102).map(|_| ()),
        Err(ErrorCode::RateLimitExceeded)
    );
    assert_eq!(pool, before);
    let (_, events) = execute_trade(&mut pool, &buyer(), 1_000, 0, START + 100 + 3_600).unwrap();
    assert_eq!(
        events.rate_limit_reset,
        Some(RateLimitReset { pool: pool.pool_id, old_count: 2, new_count: 0, ts: START + 3_700 })
    );
    assert_eq!(pool.rate_limit.count, 1);
}

#[test]
fn pause_flags_stop_trading() {
    let mut pool = trade_pool();
    toggle_pause(&mut pool, &trade_admin(), START).unwrap();
    assert_eq!(
        execute_trade(&mut pool, &buyer(), 1_000, 0, START + 100).map(|_| ()),
        Err(ErrorCode::PoolPaused)
    );
    pool.is_emergency_paused = true;
    assert_eq!(
        execute_trade(&mut pool, &buyer(), 1_000, 0, START + 100).map(|_| ()),
        Err(ErrorCode::PoolPaused)
    );
    pool.is_paused = false;
    assert_eq!(
        execute_trade(&mut pool, &buyer(), 1_000, 0, START + 100).map(|_| ()),
        Err(ErrorCode::EmergencyPaused)
    );
    pool.is_emergency_paused = false;
    assert!(execute_trade(&mut pool, &buyer(), 1_000, 0, START + 100).is_ok());
}

#[test]
fn amount_and_time_are_validated() {
    let mut pool = trade_pool();
    let before = pool.clone();
    assert_eq!(
        execute_trade(&mut pool, &buyer(), 0, 0, START + 100).map(|_| ()),
        Err(ErrorCode::InvalidAmount)
    );
    assert_eq!(
        execute_trade(&mut pool, &buyer(), 1_000, 0, 0).map(|_| ()),
        Err(ErrorCode::InvalidTimestamp)
    );
    assert_eq!(
        execute_trade(&mut pool, &buyer(), 1_000, 0, -7).map(|_| ()),
        Err(ErrorCode::InvalidTimestamp)
    );
    assert_eq!(
        execute_trade(&mut pool, &buyer(), 99, 0, START + 100).map(|_| ()),
        Err(ErrorCode::TradeTooSmall)
    );
    assert_eq!(
        execute_trade(&mut pool, &buyer(), 100_000_001, 0, START + 100).map(|_| ()),
        Err(ErrorCode::TradeTooLarge)
    );
    assert_eq!(pool, before);
    assert!(execute_trade(&mut pool, &buyer(), 100, 0, START + 100).is_ok());
}

#[test]
fn trade_limits_formula() {
    let mut pool = trade_pool();
    pool.volume.daily_limit = 50_000;
    pool.trade.max_size_bps = 1_000;
    assert_eq!(check_trade_limits(&pool, 5_000, START + 1), Ok(()));
    assert_eq!(check_trade_limits(&pool, 5_001, START + 1), Err(ErrorCode::TradeTooLarge));
    assert_eq!(check_trade_limits(&pool, 99, START + 1), Err(ErrorCode::TradeTooSmall));
    pool.volume.daily_limit = u64::MAX;
    assert_eq!(check_trade_limits(&pool, 5_000, START + 1), Err(ErrorCode::Overflow));
    pool.volume.daily_limit = 50_000;
    pool.trade.cooldown_seconds = 10;
    pool.trade.last_trade_time = START;
    assert_eq!(check_trade_limits(&pool, 5_000, START + 9), Err(ErrorCode::RateLimitExceeded));
    assert_eq!(check_trade_limits(&pool, 5_000, START + 10), Ok(()));
}

#[test]
fn daily_volume_limit_is_enforced() {
    let mut pool = settled_pool();
    pool.volume.daily_limit = 5_000;
    pool.trade.max_size_bps = 10_000;
    pool.volume.current_volume = 4_500;
    let before = pool.clone();
    assert_eq!(
        execute_trade(&mut pool, &buyer(), 501, 0, START + 100).map(|_| ()),
        Err(ErrorCode::DailyVolumeLimitExceeded)
    );
    assert_eq!(pool, before);
    assert!(execute_trade(&mut pool, &buyer(), 500, 0, START + 100).is_ok());
    assert_eq!(pool.volume.current_volume, 5_000);
}

#[test]
fn slippage_bound_is_enforced() {
    let mut pool = trade_pool();
    let before = pool.clone();
    assert_eq!(
        execute_trade(&mut pool, &buyer(), 1_000, 951, START + 100).map(|_| ()),
        Err(ErrorCode::SlippageExceeded)
    );
    assert_eq!(pool, before);
    let (outcome, _) = execute_trade(&mut pool, &buyer(), 1_000, 950, START + 100).unwrap();
    assert_eq!(outcome.amount_out, 950);
}

#[test]
fn price_impact_guard_is_enforced() {
    let mut pool = trade_pool();
    let before = pool.clone();
    assert_eq!(
        execute_trade(&mut pool, &buyer(), 50_100, 0, START + 100).map(|_| ()),
        Err(ErrorCode::PriceImpactTooHigh)
    );
    assert_eq!(pool, before);
    let (outcome, _) = execute_trade(&mut pool, &buyer(), 50_000, 0, START + 100).unwrap();
    assert_eq!(outcome.price_impact, 500);
    assert_eq!(outcome.fee_amount, 2_500);
    assert_eq!(outcome.amount_out, 47_500);
}

#[test]
fn fee_that_leaves_nothing_fails_the_trade() {
    let mut pool = trade_pool();
    pool.trade.min_size = 1;
    let before = pool.clone();
    assert_eq!(
        execute_trade(&mut pool, &buyer(), 1, 0, START + 100).map(|_| ()),
        Err(ErrorCode::FeeTooHigh)
    );
    assert_eq!(pool, before);
    let (outcome, _) = execute_trade(&mut pool, &buyer(), 2, 0, START + 100).unwrap();
    assert_eq!(outcome.fee_amount, 1);
    assert_eq!(outcome.amount_out, 1);
    assert_eq!(outcome.price_impact, 1);
}

#[test]
fn fee_accumulator_overflow_fails_the_trade() {
    let mut pool = trade_pool();
    pool.total_fees_collected = u64::MAX - 49;
    let before = pool.clone();
    assert_eq!(
        execute_trade(&mut pool, &buyer(), 1_000, 0, START + 100).map(|_| ()),
        Err(ErrorCode::Overflow)
    );
    assert_eq!(pool, before);
    pool.total_fees_collected = u64::MAX - 50;
    assert!(execute_trade(&mut pool, &buyer(), 1_000, 0, START + 100).is_ok());
    assert_eq!(pool.total_fees_collected, u64::MAX);
}

#[test]
fn pricing_reports_fee_mode_and_impact() {
    let pool = trade_pool();
    assert_eq!(price_trade(&pool, 1_000, 0, START + 100), Ok((50, 1, 10)));
    assert_eq!(price_trade(&pool, 1_000, 0, START + 301), Ok((3, 2, 10)));
    assert_eq!(price_trade(&pool, 1_000, 998, START + 301), Err(ErrorCode::SlippageExceeded));
}

#[test]
fn tier_and_fallback_modes_after_the_window() {
    let tiers = vec![
        FeeTier { volume_threshold: 10_000, fee_bps: 100 },
        FeeTier { volume_threshold: 20_000, fee_bps: 50 },
    ];
    let mut pool = trade_pool_with(10_000_000, tiers);
    pool.rate_limit.last_reset = START;
    pool.volume.last_reset = START;
    let (outcome, _) = execute_trade(&mut pool, &buyer(), 10_000, 0, START + 400).unwrap();
    assert_eq!(outcome.fee_mode, FeeMode::Dynamic);
    assert_eq!(outcome.fee_amount, 100);
    let (outcome, events) = execute_trade(&mut pool, &buyer(), 10_000, 0, START + 401).unwrap();
    assert_eq!(outcome.fee_mode, FeeMode::Dynamic);
    assert_eq!(outcome.fee_amount, 100);
    assert_eq!(events.executed.fee_mode, 2);
    let (outcome, _) = execute_trade(&mut pool, &buyer(), 10_000, 0, START + 402).unwrap();
    assert_eq!(outcome.fee_amount, 50);
    let (outcome, events) = execute_trade(&mut pool, &buyer(), 10_000, 0, START + 403).unwrap();
    assert_eq!(outcome.fee_mode, FeeMode::Fallback);
    assert_eq!(outcome.fee_amount, 1);
    assert_eq!(events.executed.fee_mode, 0);
    assert_eq!(pool.total_fees_collected, 251);
    assert_eq!(pool.volume.current_volume, 40_000);
}

#[test]
fn breaker_trips_then_refuses_until_cooldown() {
    let mut pool = trade_pool_with(1_000_000_000, vec![FeeTier { volume_threshold: 0, fee_bps: 30 }]);
    pool.rate_limit.last_reset = START;
    pool.volume.last_reset = START + 1_000;
    let (_, events) = execute_trade(&mut pool, &buyer(), 600_000, 0, START + 1_000).unwrap();
    assert_eq!(events.circuit_breaker, None);
    assert_eq!(pool.circuit_breaker.last_trigger, 0);
    let (_, events) = execute_trade(&mut pool, &buyer(), 600_000, 0, START + 1_001).unwrap();
    assert_eq!(
        events.circuit_breaker,
        Some(CircuitBreakerTriggered {
            pool: pool.pool_id,
            volume_24h: 1_200_000,
            threshold: 1_000_000,
            ts: START + 1_001,
        })
    );
    assert_eq!(pool.circuit_breaker.last_trigger, START + 1_001);
    assert_eq!(pool.volume.current_volume, 1_200_000);
    let before = pool.clone();
    for later in [START + 1_002, START + 2_000, START + 1_001 + 3_599] {
        assert_eq!(
            execute_trade(&mut pool, &buyer(), 100, 0, later).map(|_| ()),
            Err(ErrorCode::CircuitBreakerCooldown)
        );
    }
    assert_eq!(pool, before);
    let (_, events) = execute_trade(&mut pool, &buyer(), 100, 0, START + 1_001 + 3_600).unwrap();
    assert_eq!(
        events.volume_decayed,
        Some(VolumeDecayed {
            pool: pool.pool_id,
            old_volume: 1_200_000,
            new_volume: 1_188_000,
            hours_passed: 1,
            ts: START + 4_601,
        })
    );
    assert_eq!(
        events.circuit_breaker,
        Some(CircuitBreakerTriggered {
            pool: pool.pool_id,
            volume_24h: 1_188_100,
            threshold: 1_000_000,
            ts: START + 4_601,
        })
    );
    assert_eq!(pool.circuit_breaker.last_trigger, START + 4_601);
}

#[test]
fn trade_under_threshold_passes_a_hot_breaker() {
    let mut pool = settled_pool();
    pool.circuit_breaker.last_trigger = START + 50;
    pool.volume.current_volume = 10_000;
    assert!(execute_trade(&mut pool, &buyer(), 1_000, 0, START + 100).is_ok());
    assert_eq!(pool.circuit_breaker.last_trigger, START + 50);
}

#[test]
fn refused_trade_does_not_keep_the_decay() {
    let mut pool = settled_pool();
    pool.volume.current_volume = 10_000;
    let before = pool.clone();
    assert_eq!(
        execute_trade(&mut pool, &buyer(), 1_000, 1_000, START + 7_300).map(|_| ()),
        Err(ErrorCode::SlippageExceeded)
    );
    assert_eq!(pool, before);
    let (_, events) = execute_trade(&mut pool, &buyer(), 1_000, 0, START + 7_300).unwrap();
    assert_eq!(events.volume_decayed.map(|decay| decay.new_volume), Some(9_800));
    assert_eq!(pool.volume.current_volume, 10_800);
}

#[test]
fn locked_pool_refuses_trades() {
    let mut pool = trade_pool();
    pool.is_locked = true;
    let before = pool.clone();
    assert_eq!(
        execute_trade(&mut pool, &buyer(), 1_000, 0, START + 100).map(|_| ()),
        Err(ErrorCode::ReentrancyDetected)
    );
    assert_eq!(pool, before);
}

#[test]
fn trade_parameters_are_validated_in_order() {
    let mut pool = settled_pool();
    assert_eq!(validate_trade_parameters(&pool, &buyer(), 1_000, START + 1), Ok(()));
    pool.rate_limit.count = pool.rate_limit.max_calls;
    assert_eq!(
        validate_trade_parameters(&pool, &buyer(), 1_000, START + 1),
        Err(ErrorCode::RateLimitExceeded)
    );
    pool.volume.current_volume = pool.volume.daily_limit + 1;
    assert_eq!(
        validate_trade_parameters(&pool, &buyer(), 1_000, START + 1),
        Err(ErrorCode::VolumeLimitExceeded)
    );
    assert_eq!(validate_trade_parameters(&pool, &buyer(), 0, START + 1), Err(ErrorCode::InvalidAmount));
    pool.is_paused = true;
    assert_eq!(validate_trade_parameters(&pool, &buyer(), 0, 0), Err(ErrorCode::PoolPaused));
    pool.trader_blacklist.push(buyer());
    assert_eq!(validate_trade_parameters(&pool, &buyer(), 0, 0), Err(ErrorCode::TraderBlacklisted));
    let mut pool = settled_pool();
    pool.volume.current_volume = u64::MAX;
    pool.volume.daily_limit = u64::MAX;
    assert_eq!(validate_trade_parameters(&pool, &buyer(), 1, START + 1), Err(ErrorCode::Overflow));
    pool.volume.current_volume = 1_000_000;
    pool.circuit_breaker.last_trigger = START;
    assert_eq!(
        validate_trade_parameters(&pool, &buyer(), 1, START + 1),
        Err(ErrorCode::CircuitBreakerCooldown)
    );
}

#[test]
fn admitted_trades_keep_the_books_balanced() {
    let mut pool = trade_pool_with(50_000_000, vec![FeeTier { volume_threshold: 0, fee_bps: 30 }]);
    let mut fees = 0u64;
    let mut now = START + 1;
    for step in 0..200u64 {
        let amount = 100 + (step * 7_919) % 40_000;
        let before_fees = pool.total_fees_collected;
        match execute_trade(&mut pool, &buyer(), amount, 0, now) {
            Ok((outcome, events)) => {
                assert!(outcome.fee_amount >= 1 && outcome.fee_amount < amount);
                assert_eq!(outcome.amount_out + outcome.fee_amount, amount);
                assert_eq!(events.executed.amount_out, outcome.amount_out);
                fees += outcome.fee_amount;
            }
            Err(_) => assert_eq!(pool.total_fees_collected, before_fees),
        }
        assert_eq!(pool.total_fees_collected, fees);
        assert!(pool.rate_limit.count <= pool.rate_limit.max_calls);
        assert!(pool.volume.current_volume <= pool.volume.daily_limit);
        assert!(!pool.is_locked);
        assert!(pool.is_well_formed());
        now += 97;
    }
    assert!(fees > 0);
}

#[test]
fn trade_events_are_plain_values() {
    let mut pool = settled_pool();
    let (_, events) = execute_trade(&mut pool, &buyer(), 1_000, 0, START + 100).unwrap();
    let copy: TradeEvents = events;
    assert_eq!(copy, events);
    assert_eq!(copy.rate_limit_reset, None);
    assert_eq!(copy.volume_decayed, None);
}
