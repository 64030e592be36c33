//! Operations of the admin that take effect at once: liquidity, fees, the
//! fee lock, the pause switch, the breaker reset and the admin identity.

use vstd::prelude::*;
use crate::address::Address;
use crate::circuit_breaker::breaker_hot;
use crate::constants::ADMIN_UPDATE_COOLDOWN;
use crate::errors::ErrorCode;
use crate::events::{
    AdminUpdated, CircuitBreakerReset, FeeTiersLocked, FeesWithdrawn, LiquidityAdded,
    LiquidityRemoved, PauseToggled, PoolPaused, PoolResumed,
};
use crate::guard::{guarded, meets, ReentrancyGuard};
use crate::types::{PoolState, StateSettingsUpdate, VolumeSettings};
use crate::validation::{admin_refusal, validate_admin_action};

verus! {

/// Adding `amount` of liquidity at `now`: refused to anyone but the admin,
/// for an amount of zero, and where the total would not fit. The first
/// addition starts the pool.
pub open spec fn add_liquidity_outcome(pool: PoolState, admin: Address, amount: u64, now: i64)
    -> Result<(PoolState, LiquidityAdded), ErrorCode> {
    if let Some(e) = admin_refusal(pool@, admin, now) {
        Err(e)
    } else if amount == 0 {
        Err(ErrorCode::InvalidAmount)
    } else if pool.total_liquidity + amount > u64::MAX {
        Err(ErrorCode::Overflow)
    } else {
        Ok(
            (
                PoolState {
                    total_liquidity: (pool.total_liquidity + amount) as u64,
                    pool_start_time: if pool.pool_start_time == 0 {
                        now
                    } else {
                        pool.pool_start_time
                    },
                    last_update: now,
                    ..pool
                },
                LiquidityAdded { pool: pool.pool_id, admin_pubkey: admin, amount, ts: now },
            ),
        )
    }
}

fn add_liquidity_unguarded(
    pool_state: &mut PoolState,
    admin: &Address,
    amount: u64,
    now: i64,
) -> (result: Result<LiquidityAdded, ErrorCode>)
    ensures
        meets(
            add_liquidity_outcome(*old(pool_state), *admin, amount, now),
            *old(pool_state),
            *final(pool_state),
            result,
        ),
{
    validate_admin_action(pool_state, admin, now)?;
    if amount == 0 {
        return Err(ErrorCode::InvalidAmount);
    }
    let total = match pool_state.total_liquidity.checked_add(amount) {
        Some(t) => t,
        None => {
            return Err(ErrorCode::Overflow);
        },
    };
    pool_state.total_liquidity = total;
    if pool_state.pool_start_time == 0 {
        pool_state.pool_start_time = now;
    }
    pool_state.last_update = now;
    Ok(LiquidityAdded { pool: pool_state.pool_id, admin_pubkey: *admin, amount, ts: now })
}

/// Adds `amount` to the pool's liquidity on behalf of the admin. The caller
/// moves the tokens into custody once this has succeeded.
pub fn add_liquidity(
    pool_state: &mut PoolState,
    admin: &Address,
    amount: u64,
    current_time: i64,
) -> (result: Result<LiquidityAdded, ErrorCode>)
    requires
        old(pool_state).wf(),
    ensures
        final(pool_state).wf(),
        final(pool_state).is_locked == old(pool_state).is_locked,
        meets(
            guarded(
                old(pool_state).is_locked,
                add_liquidity_outcome(*old(pool_state), *admin, amount, current_time),
            ),
            *old(pool_state),
            *final(pool_state),
            result,
        ),
{
    let guard = ReentrancyGuard::new(pool_state)?;
    let result = add_liquidity_unguarded(pool_state, admin, amount, current_time);
    guard.release(pool_state);
    result
}

/// Removing `amount` of liquidity at `now`: refused to anyone but the admin,
/// for an amount of zero, and for more than the pool holds.
pub open spec fn remove_liquidity_outcome(pool: PoolState, admin: Address, amount: u64, now: i64)
    -> Result<(PoolState, LiquidityRemoved), ErrorCode> {
    if let Some(e) = admin_refusal(pool@, admin, now) {
        Err(e)
    } else if amount == 0 {
        Err(ErrorCode::InvalidAmount)
    } else if amount > pool.total_liquidity {
        Err(ErrorCode::InsufficientLiquidity)
    } else {
        Ok(
            (
                PoolState {
                    total_liquidity: (pool.total_liquidity - amount) as u64,
                    last_update: now,
                    ..pool
                },
                LiquidityRemoved { pool: pool.pool_id, admin_pubkey: admin, amount, ts: now },
            ),
        )
    }
}

fn remove_liquidity_unguarded(
    pool_state: &mut PoolState,
    admin: &Address,
    amount: u64,
    now: i64,
) -> (result: Result<LiquidityRemoved, ErrorCode>)
    ensures
        meets(
            remove_liquidity_outcome(*old(pool_state), *admin, amount, now),
            *old(pool_state),
            *final(pool_state),
            result,
        ),
{
    validate_admin_action(pool_state, admin, now)?;
    if amount == 0 {
        return Err(ErrorCode::InvalidAmount);
    }
    if amount > pool_state.total_liquidity {
        return Err(ErrorCode::InsufficientLiquidity);
    }
    pool_state.total_liquidity = pool_state.total_liquidity - amount;
    pool_state.last_update = now;
    Ok(LiquidityRemoved { pool: pool_state.pool_id, admin_pubkey: *admin, amount, ts: now })
}

/// Takes `amount` out of the pool's liquidity on behalf of the admin. The
/// caller moves the tokens out of custody once this has succeeded.
pub fn remove_liquidity(
    pool_state: &mut PoolState,
    admin: &Address,
    amount: u64,
    current_time: i64,
) -> (result: Result<LiquidityRemoved, ErrorCode>)
    requires
        old(pool_state).wf(),
    ensures
        final(pool_state).wf(),
        final(pool_state).is_locked == old(pool_state).is_locked,
        meets(
            guarded(
                old(pool_state).is_locked,
                remove_liquidity_outcome(*old(pool_state), *admin, amount, current_time),
            ),
            *old(pool_state),
            *final(pool_state),
            result,
        ),
{
    let guard = ReentrancyGuard::new(pool_state)?;
    let result = remove_liquidity_unguarded(pool_state, admin, amount, current_time);
    guard.release(pool_state);
    result
}

/// Withdrawing the collected fees at `now`: refused to anyone but the admin
/// and where nothing was collected. The accumulator goes back to zero and the
/// notification names the amount to pay out.
pub open spec fn withdraw_fees_outcome(pool: PoolState, admin: Address, now: i64) -> Result<
    (PoolState, FeesWithdrawn),
    ErrorCode,
> {
    if let Some(e) = admin_refusal(pool@, admin, now) {
        Err(e)
    } else if pool.total_fees_collected == 0 {
        Err(ErrorCode::NoFeesAvailable)
    } else {
        Ok(
            (
                PoolState { total_fees_collected: 0, ..pool },
                FeesWithdrawn {
                    pool: pool.pool_id,
                    admin_pubkey: admin,
                    amount: pool.total_fees_collected,
                    ts: now,
                },
            ),
        )
    }
}

fn withdraw_fees_unguarded(
    pool_state: &mut PoolState,
    admin: &Address,
    now: i64,
) -> (result: Result<FeesWithdrawn, ErrorCode>)
    ensures
        meets(
            withdraw_fees_outcome(*old(pool_state), *admin, now),
            *old(pool_state),
            *final(pool_state),
            result,
        ),
{
    validate_admin_action(pool_state, admin, now)?;
    if pool_state.total_fees_collected == 0 {
        return Err(ErrorCode::NoFeesAvailable);
    }
    let amount = pool_state.total_fees_collected;
    pool_state.total_fees_collected = 0;
    Ok(FeesWithdrawn { pool: pool_state.pool_id, admin_pubkey: *admin, amount, ts: now })
}

/// Empties the fee accumulator on behalf of the admin.
pub fn withdraw_fees(
    pool_state: &mut PoolState,
    admin: &Address,
    current_time: i64,
) -> (result: Result<FeesWithdrawn, ErrorCode>)
    requires
        old(pool_state).wf(),
    ensures
        final(pool_state).wf(),
        final(pool_state).is_locked == old(pool_state).is_locked,
        meets(
            guarded(
                old(pool_state).is_locked,
                withdraw_fees_outcome(*old(pool_state), *admin, current_time),
            ),
            *old(pool_state),
            *final(pool_state),
            result,
        ),
{
    let guard = ReentrancyGuard::new(pool_state)?;
    let result = withdraw_fees_unguarded(pool_state, admin, current_time);
    guard.release(pool_state);
    result
}

/// Locking the fee schedule at `now`: refused to anyone but the admin and
/// where it is locked already.
pub open spec fn lock_fee_tiers_outcome(pool: PoolState, admin: Address, now: i64) -> Result<
    (PoolState, FeeTiersLocked),
    ErrorCode,
> {
    if let Some(e) = admin_refusal(pool@, admin, now) {
        Err(e)
    } else if pool.fee_tiers_locked {
        Err(ErrorCode::FeeTiersLocked)
    } else {
        Ok(
            (
                PoolState { fee_tiers_locked: true, ..pool },
                FeeTiersLocked { pool: pool.pool_id, admin_pubkey: admin, ts: now },
            ),
        )
    }
}

fn lock_fee_tiers_unguarded(
    pool_state: &mut PoolState,
    admin: &Address,
    now: i64,
) -> (result: Result<FeeTiersLocked, ErrorCode>)
    ensures
        meets(
            lock_fee_tiers_outcome(*old(pool_state), *admin, now),
            *old(pool_state),
            *final(pool_state),
            result,
        ),
{
    validate_admin_action(pool_state, admin, now)?;
    if pool_state.fee_tiers_locked {
        return Err(ErrorCode::FeeTiersLocked);
    }
    pool_state.fee_tiers_locked = true;
    Ok(FeeTiersLocked { pool: pool_state.pool_id, admin_pubkey: *admin, ts: now })
}

/// Locks the fee schedule: from now on no new schedule is accepted until an
/// unlock has gone through the timelock.
pub fn lock_fee_tiers(
    pool_state: &mut PoolState,
    admin: &Address,
    current_time: i64,
) -> (result: Result<FeeTiersLocked, ErrorCode>)
    requires
        old(pool_state).wf(),
    ensures
        final(pool_state).wf(),
        final(pool_state).is_locked == old(pool_state).is_locked,
        meets(
            guarded(
                old(pool_state).is_locked,
                lock_fee_tiers_outcome(*old(pool_state), *admin, current_time),
            ),
            *old(pool_state),
            *final(pool_state),
            result,
        ),
{
    let guard = ReentrancyGuard::new(pool_state)?;
    let result = lock_fee_tiers_unguarded(pool_state, admin, current_time);
    guard.release(pool_state);
    result
}

/// Switching the admin pause at `now`: refused to anyone but the admin.
pub open spec fn toggle_pause_outcome(pool: PoolState, admin: Address, now: i64) -> Result<
    (PoolState, PauseToggled),
    ErrorCode,
> {
    if let Some(e) = admin_refusal(pool@, admin, now) {
        Err(e)
    } else {
        Ok(
            (
                PoolState { is_paused: !pool.is_paused, ..pool },
                if pool.is_paused {
                    PauseToggled::Resumed(
                        PoolResumed { pool: pool.pool_id, admin_pubkey: admin, ts: now },
                    )
                } else {
                    PauseToggled::Paused(
                        PoolPaused { pool: pool.pool_id, admin_pubkey: admin, ts: now },
                    )
                },
            ),
        )
    }
}

fn toggle_pause_unguarded(pool_state: &mut PoolState, admin: &Address, now: i64) -> (result: Result<
    PauseToggled,
    ErrorCode,
>)
    ensures
        meets(
            toggle_pause_outcome(*old(pool_state), *admin, now),
            *old(pool_state),
            *final(pool_state),
            result,
        ),
{
    validate_admin_action(pool_state, admin, now)?;
    pool_state.is_paused = !pool_state.is_paused;
    if pool_state.is_paused {
        Ok(PauseToggled::Paused(PoolPaused { pool: pool_state.pool_id, admin_pubkey: *admin, ts: now }))
    } else {
        Ok(
            PauseToggled::Resumed(
                PoolResumed { pool: pool_state.pool_id, admin_pubkey: *admin, ts: now },
            ),
        )
    }
}

/// Switches the admin pause on or off, at once.
pub fn toggle_pause(
    pool_state: &mut PoolState,
    admin: &Address,
    current_time: i64,
) -> (result: Result<PauseToggled, ErrorCode>)
    requires
        old(pool_state).wf(),
    ensures
        final(pool_state).wf(),
        final(pool_state).is_locked == old(pool_state).is_locked,
        meets(
            guarded(
                old(pool_state).is_locked,
                toggle_pause_outcome(*old(pool_state), *admin, current_time),
            ),
            *old(pool_state),
            *final(pool_state),
            result,
        ),
{
    let guard = ReentrancyGuard::new(pool_state)?;
    let result = toggle_pause_unguarded(pool_state, admin, current_time);
    guard.release(pool_state);
    result
}

/// Resetting the breaker at `now`: refused to anyone but the admin and while
/// the breaker is cooling down. The tracked volume goes back to zero.
pub open spec fn reset_circuit_breaker_outcome(pool: PoolState, admin: Address, now: i64) -> Result<
    (PoolState, CircuitBreakerReset),
    ErrorCode,
> {
    if let Some(e) = admin_refusal(pool@, admin, now) {
        Err(e)
    } else if breaker_hot(pool.circuit_breaker, now) {
        Err(ErrorCode::CircuitBreakerCooldown)
    } else {
        Ok(
            (
                PoolState { volume: VolumeSettings { current_volume: 0, ..pool.volume }, ..pool },
                CircuitBreakerReset { pool: pool.pool_id, admin_pubkey: admin, ts: now },
            ),
        )
    }
}

fn reset_circuit_breaker_unguarded(
    pool_state: &mut PoolState,
    admin: &Address,
    now: i64,
) -> (result: Result<CircuitBreakerReset, ErrorCode>)
    ensures
        meets(
            reset_circuit_breaker_outcome(*old(pool_state), *admin, now),
            *old(pool_state),
            *final(pool_state),
            result,
        ),
{
    validate_admin_action(pool_state, admin, now)?;
    let since: i128 = now as i128 - pool_state.circuit_breaker.last_trigger as i128;
    if since < pool_state.circuit_breaker.cooldown as i128 {
        return Err(ErrorCode::CircuitBreakerCooldown);
    }
    pool_state.volume.current_volume = 0;
    Ok(CircuitBreakerReset { pool: pool_state.pool_id, admin_pubkey: *admin, ts: now })
}

/// Zeroes the volume that the breaker judges, once its cooldown has passed.
pub fn reset_circuit_breaker(
    pool_state: &mut PoolState,
    admin: &Address,
    current_time: i64,
) -> (result: Result<CircuitBreakerReset, ErrorCode>)
    requires
        old(pool_state).wf(),
    ensures
        final(pool_state).wf(),
        final(pool_state).is_locked == old(pool_state).is_locked,
        meets(
            guarded(
                old(pool_state).is_locked,
                reset_circuit_breaker_outcome(*old(pool_state), *admin, current_time),
            ),
            *old(pool_state),
            *final(pool_state),
            result,
        ),
{
    let guard = ReentrancyGuard::new(pool_state)?;
    let result = reset_circuit_breaker_unguarded(pool_state, admin, current_time);
    guard.release(pool_state);
    result
}

/// Whether `new_admin` may not become admin: the zero address, the admin in
/// office, and the emergency admin may not.
pub open spec fn invalid_new_admin(pool: PoolState, new_admin: Address) -> bool {
    new_admin.is_zero() || new_admin == pool.admin || new_admin == pool.emergency_admin
}

/// Handing the admin role to `new_admin` at `now`: refused to anyone but the
/// admin, for an invalid successor, and within `ADMIN_UPDATE_COOLDOWN` of the
/// last change.
pub open spec fn update_admin_outcome(pool: PoolState, admin: Address, new_admin: Address, now: i64)
    -> Result<(PoolState, AdminUpdated), ErrorCode> {
    if let Some(e) = admin_refusal(pool@, admin, now) {
        Err(e)
    } else if invalid_new_admin(pool, new_admin) {
        Err(ErrorCode::InvalidNewAdmin)
    } else if now - pool.last_admin_update < ADMIN_UPDATE_COOLDOWN {
        Err(ErrorCode::TimelockNotExpired)
    } else {
        Ok(
            (
                PoolState { admin: new_admin, last_update: now, last_admin_update: now, ..pool },
                AdminUpdated {
                    pool: pool.pool_id,
                    old_admin_pubkey: admin,
                    new_admin_pubkey: new_admin,
                    ts: now,
                },
            ),
        )
    }
}

fn update_admin_unguarded(
    pool_state: &mut PoolState,
    admin: &Address,
    new_admin: &Address,
    now: i64,
) -> (result: Result<AdminUpdated, ErrorCode>)
    ensures
        meets(
            update_admin_outcome(*old(pool_state), *admin, *new_admin, now),
            *old(pool_state),
            *final(pool_state),
            result,
        ),
{
    validate_admin_action(pool_state, admin, now)?;
    if new_admin.is_unset() || new_admin.same_as(&pool_state.admin) || new_admin.same_as(
        &pool_state.emergency_admin,
    ) {
        return Err(ErrorCode::InvalidNewAdmin);
    }
    let since: i128 = now as i128 - pool_state.last_admin_update as i128;
    if since < ADMIN_UPDATE_COOLDOWN as i128 {
        return Err(ErrorCode::TimelockNotExpired);
    }
    pool_state.admin = *new_admin;
    pool_state.last_update = now;
    pool_state.last_admin_update = now;
    Ok(
        AdminUpdated {
            pool: pool_state.pool_id,
            old_admin_pubkey: *admin,
            new_admin_pubkey: *new_admin,
            ts: now,
        },
    )
}

/// Hands the admin role to `new_admin`.
pub fn update_admin(
    pool_state: &mut PoolState,
    admin: &Address,
    new_admin: &Address,
    current_time: i64,
) -> (result: Result<AdminUpdated, ErrorCode>)
    requires
        old(pool_state).wf(),
    ensures
        final(pool_state).wf(),
        final(pool_state).is_locked == old(pool_state).is_locked,
        meets(
            guarded(
                old(pool_state).is_locked,
                update_admin_outcome(*old(pool_state), *admin, *new_admin, current_time),
            ),
            *old(pool_state),
            *final(pool_state),
            result,
        ),
{
    let guard = ReentrancyGuard::new(pool_state)?;
    let result = update_admin_unguarded(pool_state, admin, new_admin, current_time);
    guard.release(pool_state);
    result
}

impl PoolState {
    /// Flips the emergency pause flag and reports the new value of it.
    pub fn toggle_emergency_pause(&mut self, current_time: i64) -> (result: Result<
        StateSettingsUpdate,
        ErrorCode,
    >)
        requires
            old(self).wf(),
        ensures
            final(self).wf(),
            meets(
                if current_time <= 0 {
                    Err(ErrorCode::InvalidTimestamp)
                } else {
                    Ok(
                        (
                            PoolState { is_emergency_paused: !old(self).is_emergency_paused, ..*old(self) },
                            StateSettingsUpdate {
                                is_paused: Some(!old(self).is_emergency_paused),
                                fee_tiers_locked: None,
                            },
                        ),
                    )
                },
                *old(self),
                *final(self),
                result,
            ),
    {
        if current_time <= 0 {
            return Err(ErrorCode::InvalidTimestamp);
        }
        self.is_emergency_paused = !self.is_emergency_paused;
        Ok(StateSettingsUpdate { is_paused: Some(self.is_emergency_paused), fee_tiers_locked: None })
    }
}

} // verus!
