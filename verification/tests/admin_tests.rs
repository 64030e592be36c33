use hoe_dex_protection::events::{
    AdminUpdated, CircuitBreakerReset, FeeTiersLocked, FeesWithdrawn, LiquidityAdded,
    LiquidityRemoved, PauseToggled, PoolInitialized, PoolPaused, PoolResumed,
};
use hoe_dex_protection::pool::check_trade_settings;
use hoe_dex_protection::{
    add_liquidity, initialize, lock_fee_tiers, remove_liquidity, reset_circuit_breaker,
    toggle_pause, update_admin, validate_admin_action, withdraw_fees, Address, ErrorCode, FeeTier,
    PoolSettings, PoolState, ReentrancyGuard, StateSettingsUpdate,
};

const NOW: i64 = 1_700_000_000;

fn admin_key() -> Address {
    Address::new([2u8; 32])
}

fn stranger_key() -> Address {
    Address::new([9u8; 32])
}

fn admin_pool() -> PoolState {
    let (pool, _) = initialize(
        Address::new([1u8; 32]),
        admin_key(),
        Address::new([3u8; 32]),
        6,
        254,
        PoolSettings::standard(),
        vec![FeeTier { volume_threshold: 0, fee_bps: 30 }],
        NOW,
    )
    .unwrap();
    pool
}

#[test]
fn initialize_builds_a_fresh_pool() {
    let mut settings = PoolSettings::standard();
    settings.rate_limit.count = 77;
    settings.volume.current_volume = 55;
    settings.circuit_breaker.last_trigger = 44;
    settings.trade.last_trade_time = 33;
    let tiers = vec![FeeTier { volume_threshold: 0, fee_bps: 30 }];
    let (pool, event) = initialize(
        Address::new([1u8; 32]),
        admin_key(),
        Address::new([3u8; 32]),
        6,
        254,
        settings,
        tiers.clone(),
        NOW,
    )
    .unwrap();
    assert_eq!(event, PoolInitialized { pool: Address::new([1u8; 32]), admin_pubkey: admin_key(), ts: NOW });
    assert_eq!(pool.admin, admin_key());
    assert_eq!(pool.emergency_admin, admin_key());
    assert_eq!(pool.token_mint, Address::new([3u8; 32]));
    assert_eq!(pool.token_decimals, 6);
    assert_eq!(pool.bump, 254);
    assert!(pool.is_initialized);
    assert!(!pool.is_paused && !pool.is_emergency_paused && !pool.is_finalized);
    assert!(!pool.is_locked && !pool.fee_tiers_locked);
    assert_eq!(pool.total_liquidity, 0);
    assert_eq!(pool.total_fees_collected, 0);
    assert_eq!(pool.pool_start_time, 0);
    assert_eq!(pool.rate_limit.count, 0);
    assert_eq!(pool.rate_limit.max_calls, 100);
    assert_eq!(pool.volume.current_volume, 0);
    assert_eq!(pool.volume.daily_limit, 1_000_000_000);
    assert_eq!(pool.circuit_breaker.last_trigger, 0);
    assert_eq!(pool.trade.last_trade_time, 0);
    assert_eq!(pool.fee_tiers, tiers);
    assert!(pool.trader_blacklist.is_empty());
    assert!(pool.pending_update.is_none());
    assert_eq!(pool.last_update, NOW);
    assert!(pool.is_well_formed());
}

#[test]
fn initialize_refuses_bad_settings() {
    let tiers = vec![FeeTier { volume_threshold: 0, fee_bps: 30 }];
    let make = |settings: PoolSettings, tiers: Vec<FeeTier>, now: i64| {
        initialize(
            Address::new([1u8; 32]),
            admin_key(),
            Address::new([3u8; 32]),
            6,
            254,
            settings,
            tiers,
            now,
        )
        .map(|_| ())
    };
    assert_eq!(make(PoolSettings::standard(), tiers.clone(), 0), Err(ErrorCode::InvalidTimestamp));
    let mut settings = PoolSettings::standard();
    settings.trade.early_trade_fee_bps = 1_001;
    assert_eq!(make(settings, tiers.clone(), NOW), Err(ErrorCode::FeeTooHigh));
    let mut settings = PoolSettings::standard();
    settings.trade.cooldown_seconds = 3_601;
    assert_eq!(make(settings, tiers.clone(), NOW), Err(ErrorCode::InvalidParameterRelationship));
    let mut settings = PoolSettings::standard();
    settings.trade.max_size_bps = 10_001;
    assert_eq!(make(settings, tiers.clone(), NOW), Err(ErrorCode::InvalidParameterRelationship));
    let mut settings = PoolSettings::standard();
    settings.circuit_breaker.window = 10;
    settings.circuit_breaker.cooldown = 11;
    assert_eq!(make(settings, tiers.clone(), NOW), Err(ErrorCode::InvalidParameterRelationship));
    let mut settings = PoolSettings::standard();
    settings.default_fee_bps = Some(0);
    assert_eq!(make(settings, tiers.clone(), NOW), Err(ErrorCode::FeeTooLow));
    settings.default_fee_bps = Some(1_001);
    assert_eq!(make(settings, tiers.clone(), NOW), Err(ErrorCode::FeeTooHigh));
    assert_eq!(make(PoolSettings::standard(), Vec::new(), NOW), Err(ErrorCode::InvalidFeeTier));
    assert_eq!(make(PoolSettings::standard(), tiers, NOW), Ok(()));
}

#[test]
fn trade_settings_check_names_the_fault() {
    let mut trade = PoolSettings::standard().trade;
    assert_eq!(check_trade_settings(&trade), Ok(()));
    trade.cooldown_seconds = 3_600;
    assert_eq!(check_trade_settings(&trade), Ok(()));
    trade.cooldown_seconds = 3_601;
    assert_eq!(check_trade_settings(&trade), Err(ErrorCode::InvalidParameterRelationship));
}

#[test]
fn default_pool_is_empty_and_well_formed() {
    let pool = PoolState::default();
    assert!(pool.is_well_formed());
    assert!(!pool.is_initialized);
    assert_eq!(pool.admin, Address::zero());
    assert!(pool.fee_tiers.is_empty());
    assert!(Address::default().is_unset());
    assert!(!admin_key().is_unset());
}

#[test]
fn initialize_default_restores_starting_settings() {
    let mut pool = admin_pool();
    pool.protection.max_price_impact = 1;
    pool.rate_limit.count = 9;
    pool.fee_tiers = vec![FeeTier { volume_threshold: 5, fee_bps: 7 }];
    pool.total_liquidity = 123;
    pool.trader_blacklist.push(stranger_key());
    assert_eq!(pool.initialize_default(), Ok(()));
    assert_eq!(pool.trade, PoolSettings::standard().trade);
    assert_eq!(pool.rate_limit, PoolSettings::standard().rate_limit);
    assert_eq!(pool.circuit_breaker, PoolSettings::standard().circuit_breaker);
    assert_eq!(pool.volume, PoolSettings::standard().volume);
    assert_eq!(pool.protection, PoolSettings::standard().protection);
    assert_eq!(pool.fee_tiers, vec![FeeTier { volume_threshold: 0, fee_bps: 30 }]);
    assert_eq!(pool.total_liquidity, 123);
    assert_eq!(pool.trader_blacklist, vec![stranger_key()]);
}

#[test]
fn well_formedness_check_finds_broken_records() {
    let mut pool = admin_pool();
    assert!(pool.is_well_formed());
    pool.rate_limit.count = pool.rate_limit.max_calls + 1;
    assert!(!pool.is_well_formed());
    let mut pool = admin_pool();
    pool.volume.current_volume = pool.volume.daily_limit + 1;
    assert!(!pool.is_well_formed());
    let mut pool = admin_pool();
    pool.trader_blacklist = vec![stranger_key(), stranger_key()];
    assert!(!pool.is_well_formed());
    let mut pool = admin_pool();
    pool.fee_tiers = vec![FeeTier { volume_threshold: 0, fee_bps: 0 }];
    assert!(!pool.is_well_formed());
    let mut pool = admin_pool();
    pool.circuit_breaker.cooldown = pool.circuit_breaker.window + 1;
    assert!(!pool.is_well_formed());
    let mut pool = admin_pool();
    pool.default_fee_bps = Some(5_000);
    assert!(!pool.is_well_formed());
    let mut pool = admin_pool();
    pool.trade.cooldown_seconds = 4_000;
    assert!(!pool.is_well_formed());
}

#[test]
fn admin_action_is_validated_in_order() {
    let mut pool = admin_pool();
    assert_eq!(validate_admin_action(&pool, &admin_key(), NOW), Ok(()));
    assert_eq!(validate_admin_action(&pool, &stranger_key(), NOW), Err(ErrorCode::Unauthorized));
    assert_eq!(validate_admin_action(&pool, &admin_key(), 0), Err(ErrorCode::InvalidTimestamp));
    pool.is_emergency_paused = true;
    assert_eq!(validate_admin_action(&pool, &admin_key(), 0), Err(ErrorCode::EmergencyPaused));
    assert_eq!(validate_admin_action(&pool, &stranger_key(), 0), Err(ErrorCode::Unauthorized));
}

#[test]
fn add_liquidity_books_amount_and_starts_pool() {
    let mut pool = admin_pool();
    assert_eq!(
        add_liquidity(&mut pool, &admin_key(), 500, NOW + 5),
        Ok(LiquidityAdded { pool: pool.pool_id, admin_pubkey: admin_key(), amount: 500, ts: NOW + 5 })
    );
    assert_eq!(pool.total_liquidity, 500);
    assert_eq!(pool.pool_start_time, NOW + 5);
    assert_eq!(pool.last_update, NOW + 5);
    assert!(add_liquidity(&mut pool, &admin_key(), 250, NOW + 9).is_ok());
    assert_eq!(pool.total_liquidity, 750);
    assert_eq!(pool.pool_start_time, NOW + 5);
    assert!(!pool.is_locked);
}

#[test]
fn add_liquidity_refusals_change_nothing() {
    let mut pool = admin_pool();
    pool.total_liquidity = u64::MAX - 1;
    let before = pool.clone();
    assert_eq!(add_liquidity(&mut pool, &stranger_key(), 5, NOW), Err(ErrorCode::Unauthorized));
    assert_eq!(add_liquidity(&mut pool, &admin_key(), 0, NOW), Err(ErrorCode::InvalidAmount));
    assert_eq!(add_liquidity(&mut pool, &admin_key(), 2, NOW), Err(ErrorCode::Overflow));
    assert_eq!(add_liquidity(&mut pool, &admin_key(), 2, -1), Err(ErrorCode::InvalidTimestamp));
    assert_eq!(pool, before);
    assert!(add_liquidity(&mut pool, &admin_key(), 1, NOW).is_ok());
    assert_eq!(pool.total_liquidity, u64::MAX);
}

#[test]
fn remove_liquidity_books_amount() {
    let mut pool = admin_pool();
    pool.total_liquidity = 1_000;
    assert_eq!(
        remove_liquidity(&mut pool, &admin_key(), 400, NOW),
        Ok(LiquidityRemoved { pool: pool.pool_id, admin_pubkey: admin_key(), amount: 400, ts: NOW })
    );
    assert_eq!(pool.total_liquidity, 600);
    let before = pool.clone();
    assert_eq!(remove_liquidity(&mut pool, &admin_key(), 601, NOW), Err(ErrorCode::InsufficientLiquidity));
    assert_eq!(remove_liquidity(&mut pool, &admin_key(), 0, NOW), Err(ErrorCode::InvalidAmount));
    assert_eq!(remove_liquidity(&mut pool, &stranger_key(), 1, NOW), Err(ErrorCode::Unauthorized));
    assert_eq!(pool, before);
    assert!(remove_liquidity(&mut pool, &admin_key(), 600, NOW).is_ok());
    assert_eq!(pool.total_liquidity, 0);
}

#[test]
fn withdraw_fees_empties_the_accumulator() {
    let mut pool = admin_pool();
    assert_eq!(withdraw_fees(&mut pool, &admin_key(), NOW), Err(ErrorCode::NoFeesAvailable));
    pool.total_fees_collected = 321;
    assert_eq!(withdraw_fees(&mut pool, &stranger_key(), NOW), Err(ErrorCode::Unauthorized));
    assert_eq!(pool.total_fees_collected, 321);
    assert_eq!(
        withdraw_fees(&mut pool, &admin_key(), NOW),
        Ok(FeesWithdrawn { pool: pool.pool_id, admin_pubkey: admin_key(), amount: 321, ts: NOW })
    );
    assert_eq!(pool.total_fees_collected, 0);
    assert_eq!(withdraw_fees(&mut pool, &admin_key(), NOW), Err(ErrorCode::NoFeesAvailable));
}

#[test]
fn lock_fee_tiers_once() {
    let mut pool = admin_pool();
    assert_eq!(lock_fee_tiers(&mut pool, &stranger_key(), NOW), Err(ErrorCode::Unauthorized));
    assert_eq!(
        lock_fee_tiers(&mut pool, &admin_key(), NOW),
        Ok(FeeTiersLocked { pool: pool.pool_id, admin_pubkey: admin_key(), ts: NOW })
    );
    assert!(pool.fee_tiers_locked);
    assert_eq!(lock_fee_tiers(&mut pool, &admin_key(), NOW), Err(ErrorCode::FeeTiersLocked));
}

#[test]
fn toggle_pause_flips_and_reports() {
    let mut pool = admin_pool();
    assert_eq!(
        toggle_pause(&mut pool, &admin_key(), NOW),
        Ok(PauseToggled::Paused(PoolPaused { pool: pool.pool_id, admin_pubkey: admin_key(), ts: NOW }))
    );
    assert!(pool.is_paused);
    assert_eq!(pool.check_pause(), Err(ErrorCode::PoolPaused));
    assert_eq!(pool.check_not_paused(), Ok(()));
    assert_eq!(
        toggle_pause(&mut pool, &admin_key(), NOW + 1),
        Ok(PauseToggled::Resumed(PoolResumed { pool: pool.pool_id, admin_pubkey: admin_key(), ts: NOW + 1 }))
    );
    assert!(!pool.is_paused);
    assert_eq!(pool.check_pause(), Ok(()));
    assert_eq!(pool.check_not_paused(), Err(ErrorCode::PoolNotPaused));
    assert_eq!(toggle_pause(&mut pool, &stranger_key(), NOW), Err(ErrorCode::Unauthorized));
    assert!(!pool.is_paused);
}

#[test]
fn toggle_emergency_pause_flips_the_flag() {
    let mut pool = admin_pool();
    assert_eq!(pool.toggle_emergency_pause(0), Err(ErrorCode::InvalidTimestamp));
    assert!(!pool.is_emergency_paused);
    assert_eq!(
        pool.toggle_emergency_pause(NOW),
        Ok(StateSettingsUpdate { is_paused: Some(true), fee_tiers_locked: None })
    );
    assert!(pool.is_emergency_paused);
    assert_eq!(
        pool.toggle_emergency_pause(NOW),
        Ok(StateSettingsUpdate { is_paused: Some(false), fee_tiers_locked: None })
    );
    assert!(!pool.is_emergency_paused);
}

#[test]
fn reset_circuit_breaker_waits_for_cooldown() {
    let mut pool = admin_pool();
    pool.volume.current_volume = 5_000;
    pool.circuit_breaker.last_trigger = NOW;
    let before = pool.clone();
    assert_eq!(reset_circuit_breaker(&mut pool, &admin_key(), NOW + 3_599), Err(ErrorCode::CircuitBreakerCooldown));
    assert_eq!(reset_circuit_breaker(&mut pool, &stranger_key(), NOW + 3_600), Err(ErrorCode::Unauthorized));
    assert_eq!(pool, before);
    assert_eq!(
        reset_circuit_breaker(&mut pool, &admin_key(), NOW + 3_600),
        Ok(CircuitBreakerReset { pool: pool.pool_id, admin_pubkey: admin_key(), ts: NOW + 3_600 })
    );
    assert_eq!(pool.volume.current_volume, 0);
    assert_eq!(pool.circuit_breaker.last_trigger, NOW);
}

#[test]
fn update_admin_hands_over_the_role() {
    let mut pool = admin_pool();
    let next = Address::new([7u8; 32]);
    assert_eq!(
        update_admin(&mut pool, &admin_key(), &next, NOW),
        Ok(AdminUpdated { pool: pool.pool_id, old_admin_pubkey: admin_key(), new_admin_pubkey: next, ts: NOW })
    );
    assert_eq!(pool.admin, next);
    assert_eq!(pool.last_admin_update, NOW);
    assert_eq!(pool.last_update, NOW);
    assert_eq!(update_admin(&mut pool, &admin_key(), &next, NOW), Err(ErrorCode::Unauthorized));
}

#[test]
fn update_admin_refuses_invalid_successors() {
    let mut pool = admin_pool();
    pool.emergency_admin = Address::new([8u8; 32]);
    let before = pool.clone();
    assert_eq!(update_admin(&mut pool, &admin_key(), &Address::zero(), NOW), Err(ErrorCode::InvalidNewAdmin));
    assert_eq!(update_admin(&mut pool, &admin_key(), &admin_key(), NOW), Err(ErrorCode::InvalidNewAdmin));
    assert_eq!(
        update_admin(&mut pool, &admin_key(), &Address::new([8u8; 32]), NOW),
        Err(ErrorCode::InvalidNewAdmin)
    );
    assert_eq!(pool, before);
}

#[test]
fn update_admin_observes_the_cooldown() {
    let mut pool = admin_pool();
    let second = Address::new([7u8; 32]);
    let third = Address::new([6u8; 32]);
    assert!(update_admin(&mut pool, &admin_key(), &second, NOW).is_ok());
    assert_eq!(update_admin(&mut pool, &second, &third, NOW + 86_399), Err(ErrorCode::TimelockNotExpired));
    assert_eq!(pool.admin, second);
    assert!(update_admin(&mut pool, &second, &third, NOW + 86_400).is_ok());
    assert_eq!(pool.admin, third);
}

#[test]
fn locked_pool_refuses_every_admin_operation() {
    let mut pool = admin_pool();
    pool.total_liquidity = 10;
    pool.total_fees_collected = 10;
    pool.is_locked = true;
    let before = pool.clone();
    let next = Address::new([7u8; 32]);
    assert_eq!(add_liquidity(&mut pool, &admin_key(), 5, NOW), Err(ErrorCode::ReentrancyDetected));
    assert_eq!(remove_liquidity(&mut pool, &admin_key(), 5, NOW), Err(ErrorCode::ReentrancyDetected));
    assert_eq!(withdraw_fees(&mut pool, &admin_key(), NOW), Err(ErrorCode::ReentrancyDetected));
    assert_eq!(lock_fee_tiers(&mut pool, &admin_key(), NOW), Err(ErrorCode::ReentrancyDetected));
    assert_eq!(toggle_pause(&mut pool, &admin_key(), NOW), Err(ErrorCode::ReentrancyDetected));
    assert_eq!(reset_circuit_breaker(&mut pool, &admin_key(), NOW), Err(ErrorCode::ReentrancyDetected));
    assert_eq!(update_admin(&mut pool, &admin_key(), &next, NOW), Err(ErrorCode::ReentrancyDetected));
    assert_eq!(add_liquidity(&mut pool, &stranger_key(), 0, 0), Err(ErrorCode::ReentrancyDetected));
    assert_eq!(pool, before);
}

#[test]
fn guard_locks_and_releases() {
    let mut pool = admin_pool();
    let guard = ReentrancyGuard::new(&mut pool).unwrap();
    assert!(pool.is_locked);
    assert_eq!(ReentrancyGuard::new(&mut pool).map(|_| ()), Err(ErrorCode::ReentrancyDetected));
    assert_eq!(add_liquidity(&mut pool, &admin_key(), 5, NOW), Err(ErrorCode::ReentrancyDetected));
    assert!(pool.is_locked);
    guard.release(&mut pool);
    assert!(!pool.is_locked);
    assert!(add_liquidity(&mut pool, &admin_key(), 5, NOW).is_ok());
    assert!(!pool.is_locked);
    assert_eq!(add_liquidity(&mut pool, &admin_key(), 0, NOW), Err(ErrorCode::InvalidAmount));
    assert!(!pool.is_locked);
}
