use hoe_dex_protection::events::{
    EmergencyPauseScheduled, EmergencyPaused, EmergencyResumeScheduled, EmergencyResumed,
};
use hoe_dex_protection::validation::validate_emergency_action;
use hoe_dex_protection::{
    apply_emergency_pause, apply_emergency_resume, initialize, schedule_emergency_pause,
    schedule_emergency_resume, Address, ErrorCode, FeeTier, PoolSettings, PoolState,
};

const NOW: i64 = 1_700_000_000;
const HOUR: i64 = 3_600;

fn watch_admin() -> Address {
    Address::new([2u8; 32])
}

fn guardian() -> Address {
    Address::new([4u8; 32])
}

fn emergency_pool() -> PoolState {
    let (mut pool, _) = initialize(
        Address::new([1u8; 32]),
        watch_admin(),
        Address::new([3u8; 32]),
        6,
        254,
        PoolSettings::standard(),
        vec![FeeTier { volume_threshold: 0, fee_bps: 30 }],
        NOW,
    )
    .unwrap();
    pool.emergency_admin = guardian();
    pool
}

#[test]
fn emergency_pause_takes_an_hour() {
    let mut pool = emergency_pool();
    assert_eq!(
        schedule_emergency_pause(&mut pool, &guardian(), NOW),
        Ok(EmergencyPauseScheduled {
            pool: pool.pool_id,
            emergency_admin_pubkey: guardian(),
            scheduled_time: NOW + HOUR,
        })
    );
    assert_eq!(pool.emergency_action_scheduled_time, NOW + HOUR);
    assert!(!pool.is_emergency_paused);
    let before = pool.clone();
    assert_eq!(apply_emergency_pause(&mut pool, &guardian(), NOW + HOUR - 1), Err(ErrorCode::TimelockNotExpired));
    assert_eq!(pool, before);
    assert_eq!(
        apply_emergency_pause(&mut pool, &guardian(), NOW + HOUR),
        Ok(EmergencyPaused { pool: pool.pool_id, emergency_admin_pubkey: guardian(), ts: NOW + HOUR })
    );
    assert!(pool.is_emergency_paused);
    assert_eq!(pool.emergency_action_scheduled_time, 0);
    assert!(!pool.is_locked);
}

#[test]
fn emergency_resume_takes_an_hour() {
    let mut pool = emergency_pool();
    pool.is_emergency_paused = true;
    assert_eq!(
        schedule_emergency_resume(&mut pool, &guardian(), NOW),
        Ok(EmergencyResumeScheduled {
            pool: pool.pool_id,
            emergency_admin_pubkey: guardian(),
            scheduled_time: NOW + HOUR,
        })
    );
    assert_eq!(apply_emergency_resume(&mut pool, &guardian(), NOW + 10), Err(ErrorCode::TimelockNotExpired));
    assert!(pool.is_emergency_paused);
    assert_eq!(
        apply_emergency_resume(&mut pool, &guardian(), NOW + HOUR + 5),
        Ok(EmergencyResumed { pool: pool.pool_id, emergency_admin_pubkey: guardian(), ts: NOW + HOUR + 5 })
    );
    assert!(!pool.is_emergency_paused);
    assert_eq!(pool.emergency_action_scheduled_time, 0);
}

#[test]
fn only_the_emergency_admin_acts() {
    let mut pool = emergency_pool();
    let before = pool.clone();
    assert_eq!(
        schedule_emergency_pause(&mut pool, &watch_admin(), NOW),
        Err(ErrorCode::InvalidEmergencyAdmin)
    );
    assert_eq!(
        schedule_emergency_resume(&mut pool, &watch_admin(), NOW),
        Err(ErrorCode::InvalidEmergencyAdmin)
    );
    assert_eq!(apply_emergency_pause(&mut pool, &watch_admin(), NOW), Err(ErrorCode::InvalidEmergencyAdmin));
    assert_eq!(apply_emergency_resume(&mut pool, &watch_admin(), NOW), Err(ErrorCode::InvalidEmergencyAdmin));
    assert_eq!(pool, before);
    assert_eq!(validate_emergency_action(&pool, &guardian(), NOW), Ok(()));
    assert_eq!(validate_emergency_action(&pool, &guardian(), 0), Err(ErrorCode::InvalidTimestamp));
}

#[test]
fn finalized_pool_takes_no_emergency_action() {
    let mut pool = emergency_pool();
    assert!(schedule_emergency_pause(&mut pool, &guardian(), NOW).is_ok());
    pool.is_finalized = true;
    let before = pool.clone();
    assert_eq!(schedule_emergency_pause(&mut pool, &guardian(), NOW), Err(ErrorCode::PoolFinalized));
    assert_eq!(schedule_emergency_resume(&mut pool, &guardian(), NOW), Err(ErrorCode::PoolFinalized));
    assert_eq!(apply_emergency_pause(&mut pool, &guardian(), NOW + HOUR), Err(ErrorCode::PoolFinalized));
    assert_eq!(apply_emergency_resume(&mut pool, &guardian(), NOW + HOUR), Err(ErrorCode::PoolFinalized));
    assert_eq!(
        schedule_emergency_pause(&mut pool, &watch_admin(), NOW),
        Err(ErrorCode::InvalidEmergencyAdmin)
    );
    assert_eq!(pool, before);
}

#[test]
fn schedule_needs_the_matching_state() {
    let mut pool = emergency_pool();
    assert_eq!(schedule_emergency_resume(&mut pool, &guardian(), NOW), Err(ErrorCode::PoolNotPaused));
    pool.is_emergency_paused = true;
    assert_eq!(schedule_emergency_pause(&mut pool, &guardian(), NOW), Err(ErrorCode::EmergencyPaused));
    assert_eq!(pool.emergency_action_scheduled_time, 0);
}

#[test]
fn apply_without_schedule_fails() {
    let mut pool = emergency_pool();
    assert_eq!(apply_emergency_pause(&mut pool, &guardian(), NOW), Err(ErrorCode::NoPendingUpdate));
    assert_eq!(apply_emergency_resume(&mut pool, &guardian(), NOW), Err(ErrorCode::NoPendingUpdate));
}

#[test]
fn apply_of_the_other_action_is_invalid_transition() {
    let mut pool = emergency_pool();
    assert!(schedule_emergency_pause(&mut pool, &guardian(), NOW).is_ok());
    assert_eq!(
        apply_emergency_resume(&mut pool, &guardian(), NOW + HOUR),
        Err(ErrorCode::InvalidStateTransition)
    );
    assert!(apply_emergency_pause(&mut pool, &guardian(), NOW + HOUR).is_ok());
    assert!(schedule_emergency_resume(&mut pool, &guardian(), NOW + HOUR).is_ok());
    assert_eq!(
        apply_emergency_pause(&mut pool, &guardian(), NOW + 2 * HOUR),
        Err(ErrorCode::InvalidStateTransition)
    );
    assert!(pool.is_emergency_paused);
    assert!(apply_emergency_resume(&mut pool, &guardian(), NOW + 2 * HOUR).is_ok());
    assert!(!pool.is_emergency_paused);
}

#[test]
fn emergency_schedule_overflow_and_bad_time() {
    let mut pool = emergency_pool();
    assert_eq!(schedule_emergency_pause(&mut pool, &guardian(), 0), Err(ErrorCode::InvalidTimestamp));
    assert_eq!(
        schedule_emergency_pause(&mut pool, &guardian(), i64::MAX - HOUR + 1),
        Err(ErrorCode::Overflow)
    );
    assert!(schedule_emergency_pause(&mut pool, &guardian(), i64::MAX - HOUR).is_ok());
    assert_eq!(pool.emergency_action_scheduled_time, i64::MAX);
}

#[test]
fn emergency_path_is_independent_of_parameter_updates() {
    let mut pool = emergency_pool();
    assert!(schedule_emergency_pause(&mut pool, &guardian(), NOW).is_ok());
    assert!(pool.pending_update.is_none());
    assert!(apply_emergency_pause(&mut pool, &guardian(), NOW + HOUR).is_ok());
    assert!(!pool.is_paused);
}

#[test]
fn locked_pool_refuses_emergency_operations() {
    let mut pool = emergency_pool();
    pool.is_locked = true;
    let before = pool.clone();
    assert_eq!(schedule_emergency_pause(&mut pool, &guardian(), NOW), Err(ErrorCode::ReentrancyDetected));
    assert_eq!(schedule_emergency_resume(&mut pool, &guardian(), NOW), Err(ErrorCode::ReentrancyDetected));
    assert_eq!(apply_emergency_pause(&mut pool, &guardian(), NOW), Err(ErrorCode::ReentrancyDetected));
    assert_eq!(apply_emergency_resume(&mut pool, &guardian(), NOW), Err(ErrorCode::ReentrancyDetected));
    assert_eq!(pool, before);
}
