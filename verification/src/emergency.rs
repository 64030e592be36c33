//! The emergency pause: a pause and its resume, each scheduled by the
//! emergency admin and applied after a timelock of its own, shorter than the
//! one of parameter updates. A finalized pool takes no emergency action.

use vstd::prelude::*;
use crate::address::Address;
use crate::constants::EMERGENCY_TIMELOCK_SECONDS;
use crate::errors::ErrorCode;
use crate::events::{
    EmergencyPauseScheduled, EmergencyPaused, EmergencyResumeScheduled, EmergencyResumed,
};
use crate::guard::{guarded, meets, ReentrancyGuard};
use crate::types::PoolState;
use crate::validation::{emergency_refusal, validate_emergency_action};

verus! {

/// Scheduling an emergency pause at `now`: refused to anyone but the
/// emergency admin, on a finalized pool, while the emergency pause is on, and where the
/// timelock target does not fit. A scheduled action that was not yet applied
/// is replaced.
pub open spec fn schedule_emergency_pause_outcome(pool: PoolState, caller: Address, now: i64)
    -> Result<(PoolState, EmergencyPauseScheduled), ErrorCode> {
    if let Some(e) = emergency_refusal(pool@, caller, now) {
        Err(e)
    } else if pool.is_emergency_paused {
        Err(ErrorCode::EmergencyPaused)
    } else if now + EMERGENCY_TIMELOCK_SECONDS > i64::MAX {
        Err(ErrorCode::Overflow)
    } else {
        Ok(
            (
                PoolState {
                    emergency_action_scheduled_time: (now + EMERGENCY_TIMELOCK_SECONDS) as i64,
                    ..pool
                },
                EmergencyPauseScheduled {
                    pool: pool.pool_id,
                    emergency_admin_pubkey: caller,
                    scheduled_time: (now + EMERGENCY_TIMELOCK_SECONDS) as i64,
                },
            ),
        )
    }
}

fn schedule_emergency_pause_unguarded(
    pool_state: &mut PoolState,
    emergency_admin: &Address,
    now: i64,
) -> (result: Result<EmergencyPauseScheduled, ErrorCode>)
    ensures
        meets(
            schedule_emergency_pause_outcome(*old(pool_state), *emergency_admin, now),
            *old(pool_state),
            *final(pool_state),
            result,
        ),
{
    validate_emergency_action(pool_state, emergency_admin, now)?;
    if pool_state.is_emergency_paused {
        return Err(ErrorCode::EmergencyPaused);
    }
    if now > i64::MAX - EMERGENCY_TIMELOCK_SECONDS as i64 {
        return Err(ErrorCode::Overflow);
    }
    let scheduled_time = now + EMERGENCY_TIMELOCK_SECONDS as i64;
    pool_state.emergency_action_scheduled_time = scheduled_time;
    Ok(
        EmergencyPauseScheduled {
            pool: pool_state.pool_id,
            emergency_admin_pubkey: *emergency_admin,
            scheduled_time,
        },
    )
}

/// Schedules an emergency pause. It can be applied once
/// `EMERGENCY_TIMELOCK_SECONDS` seconds have passed.
pub fn schedule_emergency_pause(
    pool_state: &mut PoolState,
    emergency_admin: &Address,
    current_time: i64,
) -> (result: Result<EmergencyPauseScheduled, ErrorCode>)
    requires
        old(pool_state).wf(),
    ensures
        final(pool_state).wf(),
        final(pool_state).is_locked == old(pool_state).is_locked,
        meets(
            guarded(
                old(pool_state).is_locked,
                schedule_emergency_pause_outcome(*old(pool_state), *emergency_admin, current_time),
            ),
            *old(pool_state),
            *final(pool_state),
            result,
        ),
{
    let guard = ReentrancyGuard::new(pool_state)?;
    let result = schedule_emergency_pause_unguarded(pool_state, emergency_admin, current_time);
    guard.release(pool_state);
    result
}

/// Applying the scheduled emergency pause at `now`: refused to anyone but the
/// emergency admin, on a finalized pool, where nothing is scheduled, before the
/// scheduled time, and where the pause is on already, so that what is scheduled
/// is a resume. The slot is cleared.
pub open spec fn apply_emergency_pause_outcome(
    pool: PoolState,
    caller: Address,
    now: i64,
) -> Result<(PoolState, EmergencyPaused), ErrorCode> {
    if let Some(e) = emergency_refusal(pool@, caller, now) {
        Err(e)
    } else if pool.emergency_action_scheduled_time == 0 {
        Err(ErrorCode::NoPendingUpdate)
    } else if now < pool.emergency_action_scheduled_time {
        Err(ErrorCode::TimelockNotExpired)
    } else if pool.is_emergency_paused {
        Err(ErrorCode::InvalidStateTransition)
    } else {
        Ok(
            (
                PoolState {
                    is_emergency_paused: true,
                    emergency_action_scheduled_time: 0,
                    ..pool
                },
                EmergencyPaused { pool: pool.pool_id, emergency_admin_pubkey: caller, ts: now },
            ),
        )
    }
}

fn apply_emergency_pause_unguarded(
    pool_state: &mut PoolState,
    emergency_admin: &Address,
    now: i64,
) -> (result: Result<EmergencyPaused, ErrorCode>)
    requires
        old(pool_state).wf(),
    ensures
        final(pool_state).wf(),
        meets(
            apply_emergency_pause_outcome(*old(pool_state), *emergency_admin, now),
            *old(pool_state),
            *final(pool_state),
            result,
        ),
{
    validate_emergency_action(pool_state, emergency_admin, now)?;
    if pool_state.emergency_action_scheduled_time == 0 {
        return Err(ErrorCode::NoPendingUpdate);
    }
    if now < pool_state.emergency_action_scheduled_time {
        return Err(ErrorCode::TimelockNotExpired);
    }
    if pool_state.is_emergency_paused {
        return Err(ErrorCode::InvalidStateTransition);
    }
    let _ = pool_state.toggle_emergency_pause(now);
    pool_state.emergency_action_scheduled_time = 0;
    Ok(EmergencyPaused { pool: pool_state.pool_id, emergency_admin_pubkey: *emergency_admin, ts: now })
}

/// Puts the scheduled emergency pause into effect once its timelock has expired.
pub fn apply_emergency_pause(
    pool_state: &mut PoolState,
    emergency_admin: &Address,
    current_time: i64,
) -> (result: Result<EmergencyPaused, ErrorCode>)
    requires
        old(pool_state).wf(),
    ensures
        final(pool_state).wf(),
        final(pool_state).is_locked == old(pool_state).is_locked,
        meets(
            guarded(
                old(pool_state).is_locked,
                apply_emergency_pause_outcome(*old(pool_state), *emergency_admin, current_time),
            ),
            *old(pool_state),
            *final(pool_state),
            result,
        ),
{
    let guard = ReentrancyGuard::new(pool_state)?;
    let result = apply_emergency_pause_unguarded(pool_state, emergency_admin, current_time);
    guard.release(pool_state);
    result
}

/// Scheduling an emergency resume at `now`: refused to anyone but the
/// emergency admin, on a finalized pool, while no emergency pause is on, and where the
/// timelock target does not fit. A scheduled action that was not yet applied
/// is replaced.
pub open spec fn schedule_emergency_resume_outcome(pool: PoolState, caller: Address, now: i64)
    -> Result<(PoolState, EmergencyResumeScheduled), ErrorCode> {
    if let Some(e) = emergency_refusal(pool@, caller, now) {
        Err(e)
    } else if !pool.is_emergency_paused {
        Err(ErrorCode::PoolNotPaused)
    } else if now + EMERGENCY_TIMELOCK_SECONDS > i64::MAX {
        Err(ErrorCode::Overflow)
    } else {
        Ok(
            (
                PoolState {
                    emergency_action_scheduled_time: (now + EMERGENCY_TIMELOCK_SECONDS) as i64,
                    ..pool
                },
                EmergencyResumeScheduled {
                    pool: pool.pool_id,
                    emergency_admin_pubkey: caller,
                    scheduled_time: (now + EMERGENCY_TIMELOCK_SECONDS) as i64,
                },
            ),
        )
    }
}

fn schedule_emergency_resume_unguarded(
    pool_state: &mut PoolState,
    emergency_admin: &Address,
    now: i64,
) -> (result: Result<EmergencyResumeScheduled, ErrorCode>)
    ensures
        meets(
            schedule_emergency_resume_outcome(*old(pool_state), *emergency_admin, now),
            *old(pool_state),
            *final(pool_state),
            result,
        ),
{
    validate_emergency_action(pool_state, emergency_admin, now)?;
    if !pool_state.is_emergency_paused {
        return Err(ErrorCode::PoolNotPaused);
    }
    if now > i64::MAX - EMERGENCY_TIMELOCK_SECONDS as i64 {
        return Err(ErrorCode::Overflow);
    }
    let scheduled_time = now + EMERGENCY_TIMELOCK_SECONDS as i64;
    pool_state.emergency_action_scheduled_time = scheduled_time;
    Ok(
        EmergencyResumeScheduled {
            pool: pool_state.pool_id,
            emergency_admin_pubkey: *emergency_admin,
            scheduled_time,
        },
    )
}

/// Schedules an emergency resume. It can be applied once
/// `EMERGENCY_TIMELOCK_SECONDS` seconds have passed.
pub fn schedule_emergency_resume(
    pool_state: &mut PoolState,
    emergency_admin: &Address,
    current_time: i64,
) -> (result: Result<EmergencyResumeScheduled, ErrorCode>)
    requires
        old(pool_state).wf(),
    ensures
        final(pool_state).wf(),
        final(pool_state).is_locked == old(pool_state).is_locked,
        meets(
            guarded(
                old(pool_state).is_locked,
                schedule_emergency_resume_outcome(*old(pool_state), *emergency_admin, current_time),
            ),
            *old(pool_state),
            *final(pool_state),
            result,
        ),
{
    let guard = ReentrancyGuard::new(pool_state)?;
    let result = schedule_emergency_resume_unguarded(pool_state, emergency_admin, current_time);
    guard.release(pool_state);
    result
}

/// Applying the scheduled emergency resume at `now`: refused to anyone but the
/// emergency admin, on a finalized pool, where nothing is scheduled, before the
/// scheduled time, and where no pause is on, so that what is scheduled is a
/// pause. The slot is cleared.
pub open spec fn apply_emergency_resume_outcome(
    pool: PoolState,
    caller: Address,
    now: i64,
) -> Result<(PoolState, EmergencyResumed), ErrorCode> {
    if let Some(e) = emergency_refusal(pool@, caller, now) {
        Err(e)
    } else if pool.emergency_action_scheduled_time == 0 {
        Err(ErrorCode::NoPendingUpdate)
    } else if now < pool.emergency_action_scheduled_time {
        Err(ErrorCode::TimelockNotExpired)
    } else if !pool.is_emergency_paused {
        Err(ErrorCode::InvalidStateTransition)
    } else {
        Ok(
            (
                PoolState {
                    is_emergency_paused: false,
                    emergency_action_scheduled_time: 0,
                    ..pool
                },
                EmergencyResumed { pool: pool.pool_id, emergency_admin_pubkey: caller, ts: now },
            ),
        )
    }
}

fn apply_emergency_resume_unguarded(
    pool_state: &mut PoolState,
    emergency_admin: &Address,
    now: i64,
) -> (result: Result<EmergencyResumed, ErrorCode>)
    requires
        old(pool_state).wf(),
    ensures
        final(pool_state).wf(),
        meets(
            apply_emergency_resume_outcome(*old(pool_state), *emergency_admin, now),
            *old(pool_state),
            *final(pool_state),
            result,
        ),
{
    validate_emergency_action(pool_state, emergency_admin, now)?;
    if pool_state.emergency_action_scheduled_time == 0 {
        return Err(ErrorCode::NoPendingUpdate);
    }
    if now < pool_state.emergency_action_scheduled_time {
        return Err(ErrorCode::TimelockNotExpired);
    }
    if !pool_state.is_emergency_paused {
        return Err(ErrorCode::InvalidStateTransition);
    }
    let _ = pool_state.toggle_emergency_pause(now);
    pool_state.emergency_action_scheduled_time = 0;
    Ok(EmergencyResumed { pool: pool_state.pool_id, emergency_admin_pubkey: *emergency_admin, ts: now })
}

/// Puts the scheduled emergency resume into effect once its timelock has expired.
pub fn apply_emergency_resume(
    pool_state: &mut PoolState,
    emergency_admin: &Address,
    current_time: i64,
) -> (result: Result<EmergencyResumed, ErrorCode>)
    requires
        old(pool_state).wf(),
    ensures
        final(pool_state).wf(),
        final(pool_state).is_locked == old(pool_state).is_locked,
        meets(
            guarded(
                old(pool_state).is_locked,
                apply_emergency_resume_outcome(*old(pool_state), *emergency_admin, current_time),
            ),
            *old(pool_state),
            *final(pool_state),
            result,
        ),
{
    let guard = ReentrancyGuard::new(pool_state)?;
    let result = apply_emergency_resume_unguarded(pool_state, emergency_admin, current_time);
    guard.release(pool_state);
    result
}

/// The emergency timelock: an action scheduled at `now` cannot be applied
/// before `now + EMERGENCY_TIMELOCK_SECONDS`, and can be from then on.
pub proof fn lemma_emergency_pause_timelock(pool: PoolState, caller: Address, now: i64, later: i64)
    requires
        schedule_emergency_pause_outcome(pool, caller, now) is Ok,
        later > 0,
    ensures
        ({
            let scheduled = schedule_emergency_pause_outcome(pool, caller, now)->Ok_0.0;
            if later < now + EMERGENCY_TIMELOCK_SECONDS {
                apply_emergency_pause_outcome(scheduled, caller, later) == Err::<
                    (PoolState, EmergencyPaused),
                    ErrorCode,
                >(ErrorCode::TimelockNotExpired)
            } else {
                apply_emergency_pause_outcome(scheduled, caller, later) matches Ok((next, _))
                    && next.is_emergency_paused && next.emergency_action_scheduled_time == 0
            }
        }),
{
}

} // verus!
