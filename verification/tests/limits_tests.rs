use hoe_dex_protection::events::{CircuitBreakerTriggered, RateLimitReset, VolumeDecayed};
use hoe_dex_protection::{
    initialize, Address, CircuitBreakerSettings, ErrorCode, FeeTier, PoolSettings, PoolState,
    RateLimitSettings, VolumeSettings,
};

fn limits_pool() -> PoolState {
    let (pool, _) = initialize(
        Address::new([1u8; 32]),
        Address::new([2u8; 32]),
        Address::new([3u8; 32]),
        6,
        255,
        PoolSettings::standard(),
        vec![FeeTier { volume_threshold: 0, fee_bps: 30 }],
        1_000,
    )
    .unwrap();
    pool
}

fn counter(count: u32, max_calls: u32, last_reset: i64) -> RateLimitSettings {
    RateLimitSettings { window_seconds: 60, count, max_calls, last_reset }
}

#[test]
fn rate_limit_counts_up_to_the_limit() {
    let mut limiter = counter(0, 3, 1_000);
    assert_eq!(limiter.check_and_increment(1_010), Ok(None));
    assert_eq!(limiter.check_and_increment(1_020), Ok(None));
    assert_eq!(limiter.check_and_increment(1_030), Ok(None));
    assert_eq!(limiter.count, 3);
    assert_eq!(limiter.check_and_increment(1_040), Err(ErrorCode::RateLimitExceeded));
    assert_eq!(limiter, counter(3, 3, 1_000));
}

#[test]
fn rate_limit_window_rolls_over_at_its_end() {
    let mut limiter = counter(3, 3, 1_000);
    assert_eq!(limiter.check_and_increment(1_059), Err(ErrorCode::RateLimitExceeded));
    assert_eq!(limiter.check_and_increment(1_060), Ok(Some(3)));
    assert_eq!(limiter, counter(1, 3, 1_060));
}

#[test]
fn rate_limit_of_zero_admits_nothing() {
    let mut limiter = counter(0, 0, 1_000);
    assert_eq!(limiter.check_and_increment(1_010), Err(ErrorCode::RateLimitExceeded));
    assert_eq!(limiter.check_and_increment(5_000), Err(ErrorCode::RateLimitExceeded));
    assert_eq!(limiter, counter(0, 0, 1_000));
}

#[test]
fn rate_limit_count_never_passes_limit_over_many_calls() {
    let mut limiter = counter(0, 5, 0);
    let mut now = 1i64;
    for step in 0..500 {
        let _ = limiter.check_and_increment(now);
        assert!(limiter.count <= limiter.max_calls);
        now += (step % 7) * 5;
    }
}

#[test]
fn rate_limit_burst_across_the_boundary_is_admitted() {
    let mut limiter = counter(0, 2, 1_000);
    assert_eq!(limiter.check_and_increment(1_058), Ok(None));
    assert_eq!(limiter.check_and_increment(1_059), Ok(None));
    assert_eq!(limiter.check_and_increment(1_060), Ok(Some(2)));
    assert_eq!(limiter.check_and_increment(1_061), Ok(None));
    assert_eq!(limiter.check_and_increment(1_062), Err(ErrorCode::RateLimitExceeded));
}

#[test]
fn pool_rate_limit_methods() {
    let mut pool = limits_pool();
    pool.rate_limit = counter(1, 2, 1_000);
    assert_eq!(pool.check_rate_limit(0), Err(ErrorCode::InvalidTimestamp));
    assert_eq!(pool.check_rate_limit(1_010), Ok(()));
    assert_eq!(pool.rate_limit, counter(1, 2, 1_000));
    assert_eq!(pool.update_rate_limit(-5), Err(ErrorCode::InvalidTimestamp));
    assert_eq!(pool.update_rate_limit(1_010), Ok(None));
    assert_eq!(pool.check_rate_limit(1_011), Err(ErrorCode::RateLimitExceeded));
    assert_eq!(pool.update_rate_limit(1_011), Err(ErrorCode::RateLimitExceeded));
    assert_eq!(pool.rate_limit, counter(2, 2, 1_000));
    assert_eq!(
        pool.update_rate_limit(1_060),
        Ok(Some(RateLimitReset { pool: pool.pool_id, old_count: 2, new_count: 0, ts: 1_060 }))
    );
    assert_eq!(pool.rate_limit, counter(1, 2, 1_060));
    assert_eq!(
        pool.reset_rate_limit(2_000),
        Ok(RateLimitReset { pool: pool.pool_id, old_count: 1, new_count: 0, ts: 2_000 })
    );
    assert_eq!(pool.rate_limit, counter(0, 2, 2_000));
}

fn volume_of(current_volume: u64, last_reset: i64) -> VolumeSettings {
    VolumeSettings { daily_limit: 1_000_000, current_volume, last_reset, decay_rate: 100 }
}

#[test]
fn volume_decays_one_percent_per_hour() {
    let mut volume = volume_of(10_000, 1_000);
    assert_eq!(volume.decay(1_000 + 3_600), Some((10_000, 9_900, 1)));
    assert_eq!(volume, volume_of(9_900, 4_600));
    let mut volume = volume_of(10_000, 1_000);
    assert_eq!(volume.decay(1_000 + 5 * 3_600 + 10), Some((10_000, 9_500, 5)));
    let mut volume = volume_of(999, 0);
    assert_eq!(volume.decay(23 * 3_600), Some((999, 769, 23)));
}

#[test]
fn volume_is_reset_after_a_day() {
    let mut volume = volume_of(10_000, 1_000);
    assert_eq!(volume.decay(1_000 + 24 * 3_600), Some((10_000, 0, 24)));
    assert_eq!(volume, volume_of(0, 1_000 + 24 * 3_600));
    let mut volume = volume_of(10_000, 1_000);
    assert_eq!(volume.decay(1_000 + 100 * 3_600), Some((10_000, 0, 100)));
}

#[test]
fn volume_decay_follows_the_configured_rate() {
    let mut volume = VolumeSettings { decay_rate: 500, ..volume_of(10_000, 0) };
    assert_eq!(volume.decay(2 * 3_600), Some((10_000, 9_000, 2)));
    let mut volume = VolumeSettings { decay_rate: 5_000, ..volume_of(10_000, 0) };
    assert_eq!(volume.decay(2 * 3_600), Some((10_000, 0, 2)));
    let mut volume = VolumeSettings { decay_rate: u64::MAX, ..volume_of(10_000, 0) };
    assert_eq!(volume.decay(3_600), Some((10_000, 0, 1)));
    let mut volume = VolumeSettings { decay_rate: 0, ..volume_of(10_000, 0) };
    assert_eq!(volume.decay(5 * 3_600), Some((10_000, 10_000, 5)));
}

#[test]
fn volume_decay_within_the_hour_is_a_no_op() {
    let mut volume = volume_of(10_000, 1_000);
    assert_eq!(volume.decay(1_000 + 3_599), None);
    assert_eq!(volume, volume_of(10_000, 1_000));
    assert_eq!(volume.decay(500), None);
    assert_eq!(volume, volume_of(10_000, 1_000));
}

#[test]
fn second_decay_in_the_same_hour_changes_nothing() {
    let mut volume = volume_of(10_000, 1_000);
    assert_eq!(volume.decay(10_000), Some((10_000, 9_800, 2)));
    let after_first = volume;
    assert_eq!(volume.decay(10_000), None);
    assert_eq!(volume.decay(10_000 + 3_599), None);
    assert_eq!(volume, after_first);
    assert_eq!(volume.decay(10_000 + 3_600), Some((9_800, 9_702, 1)));
}

#[test]
fn volume_decay_handles_extreme_times() {
    let mut volume = volume_of(u64::MAX, i64::MIN);
    assert_eq!(volume.decay(i64::MAX).map(|change| change.1), Some(0));
    let mut volume = volume_of(u64::MAX, 0);
    assert_eq!(volume.decay(3_600), Some((u64::MAX, 18_262_276_632_972_456_098, 1)));
}

#[test]
fn volume_add_respects_daily_limit() {
    let mut volume = volume_of(999_000, 0);
    assert_eq!(volume.add(1_000), Ok(()));
    assert_eq!(volume.current_volume, 1_000_000);
    assert_eq!(volume.add(1), Err(ErrorCode::DailyVolumeLimitExceeded));
    assert_eq!(volume.current_volume, 1_000_000);
    assert_eq!(volume.add(u64::MAX), Err(ErrorCode::Overflow));
}

#[test]
fn pool_volume_methods() {
    let mut pool = limits_pool();
    pool.volume = volume_of(10_000, 1_000);
    assert_eq!(pool.decay_volume(0), Err(ErrorCode::InvalidTimestamp));
    assert_eq!(pool.decay_volume(2_000), Ok(None));
    assert_eq!(
        pool.decay_volume(1_000 + 7_200),
        Ok(Some(VolumeDecayed {
            pool: pool.pool_id,
            old_volume: 10_000,
            new_volume: 9_800,
            hours_passed: 2,
            ts: 8_200,
        }))
    );
    assert_eq!(pool.update_volume(200, 0), Err(ErrorCode::InvalidTimestamp));
    assert_eq!(pool.update_volume(200, 8_300), Ok(()));
    assert_eq!(pool.volume.current_volume, 10_000);
    assert_eq!(pool.update_volume(990_001, 8_300), Err(ErrorCode::DailyVolumeLimitExceeded));
    assert_eq!(pool.volume.current_volume, 10_000);
    assert_eq!(pool.check_volume_limit(8_300), Ok(()));
    assert_eq!(pool.check_volume_limit(-1), Err(ErrorCode::InvalidTimestamp));
    pool.volume.current_volume = 1_000_001;
    assert_eq!(pool.check_volume_limit(8_300), Err(ErrorCode::VolumeLimitExceeded));
}

fn breaker(last_trigger: i64) -> CircuitBreakerSettings {
    CircuitBreakerSettings { threshold: 1_000, window: 600, cooldown: 600, last_trigger }
}

#[test]
fn breaker_admits_volume_up_to_threshold() {
    assert_eq!(breaker(0).check(400, 600, 10_000), Ok(false));
    assert_eq!(breaker(9_900).check(400, 600, 10_000), Ok(false));
    assert_eq!(breaker(0).check(0, 0, 10_000), Ok(false));
}

#[test]
fn cool_breaker_trips_and_admits() {
    assert_eq!(breaker(0).check(400, 601, 10_000), Ok(true));
    assert_eq!(breaker(9_400).check(400, 601, 10_000), Ok(true));
}

#[test]
fn hot_breaker_refuses_volume_over_threshold() {
    assert_eq!(breaker(9_401).check(400, 601, 10_000), Err(ErrorCode::CircuitBreakerCooldown));
    assert_eq!(breaker(10_000).check(1_000, 1, 10_000), Err(ErrorCode::CircuitBreakerCooldown));
    assert_eq!(breaker(20_000).check(1_000, 1, 10_000), Err(ErrorCode::CircuitBreakerCooldown));
}

#[test]
fn breaker_volume_overflow_is_overflow() {
    assert_eq!(breaker(0).check(u64::MAX, 1, 10_000), Err(ErrorCode::Overflow));
}

#[test]
fn pool_breaker_methods() {
    let mut pool = limits_pool();
    pool.circuit_breaker = breaker(0);
    pool.volume = volume_of(400, 0);
    assert_eq!(pool.check_circuit_breaker(601, 0), Err(ErrorCode::InvalidTimestamp));
    assert_eq!(pool.check_circuit_breaker(601, 10_000), Ok(()));
    assert_eq!(pool.circuit_breaker, breaker(0));
    assert_eq!(pool.update_circuit_breaker(600, 10_000), Ok(None));
    assert_eq!(pool.circuit_breaker, breaker(0));
    assert_eq!(
        pool.update_circuit_breaker(601, 10_000),
        Ok(Some(CircuitBreakerTriggered {
            pool: pool.pool_id,
            volume_24h: 1_001,
            threshold: 1_000,
            ts: 10_000,
        }))
    );
    assert_eq!(pool.circuit_breaker, breaker(10_000));
    assert_eq!(pool.update_circuit_breaker(601, 10_599), Err(ErrorCode::CircuitBreakerCooldown));
    assert_eq!(pool.check_circuit_breaker(601, 10_599), Err(ErrorCode::CircuitBreakerCooldown));
    assert_eq!(pool.update_circuit_breaker(600, 10_599), Ok(None));
    assert_eq!(pool.circuit_breaker, breaker(10_000));
    assert!(pool.update_circuit_breaker(601, 10_600).unwrap().is_some());
    assert_eq!(pool.circuit_breaker, breaker(10_600));
}

#[test]
fn price_impact_formula() {
    let mut pool = limits_pool();
    pool.protection.max_price_impact = 500;
    assert_eq!(pool.check_price_impact(1_000, 100_000), Ok(100));
    assert_eq!(pool.check_price_impact(5_000, 100_000), Ok(500));
    assert_eq!(pool.check_price_impact(5_010, 100_000), Err(ErrorCode::PriceImpactTooHigh));
    assert_eq!(pool.check_price_impact(333, 100_000), Ok(33));
}

#[test]
fn price_impact_of_empty_pool_is_zero() {
    let mut pool = limits_pool();
    pool.protection.max_price_impact = 0;
    assert_eq!(pool.check_price_impact(1_000, 0), Ok(0));
    assert_eq!(pool.check_price_impact(u64::MAX, 0), Ok(0));
    assert_eq!(pool.check_price_impact(0, 100), Ok(0));
}

#[test]
fn price_impact_is_never_rounded_to_nothing() {
    let mut pool = limits_pool();
    pool.protection.max_price_impact = 500;
    assert_eq!(pool.check_price_impact(1, 1_000_000), Ok(1));
    assert_eq!(pool.check_price_impact(99, 1_000_000), Ok(1));
    assert_eq!(pool.check_price_impact(100, 1_000_000), Ok(1));
    assert_eq!(pool.check_price_impact(200, 1_000_000), Ok(2));
    pool.protection.max_price_impact = 0;
    assert_eq!(pool.check_price_impact(1, 1_000_000), Err(ErrorCode::PriceImpactTooHigh));
}

#[test]
fn price_impact_product_overflow_is_overflow() {
    let pool = limits_pool();
    assert_eq!(pool.check_price_impact(u64::MAX / 10_000 + 1, 1), Err(ErrorCode::Overflow));
    assert_eq!(pool.check_price_impact(u64::MAX, u64::MAX), Err(ErrorCode::Overflow));
}
