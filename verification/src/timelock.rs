//! The two-phase parameter update: schedule a bundle, wait out the timelock,
//! then apply it or cancel it. At most one bundle is pending; scheduling
//! another replaces it.

use vstd::prelude::*;
use crate::address::Address;
use crate::constants::PARAMETER_UPDATE_TIMELOCK;
use crate::errors::ErrorCode;
use crate::events::{
    FeeTiersUnlockScheduled, ParameterUpdateCancelled, ParameterUpdateScheduled, ParametersUpdated,
};
use crate::fees::{fee_tiers_error, lemma_fee_tiers_error_iff_invalid, validate_fee_tiers};
use crate::guard::{guarded, meets_model, ReentrancyGuard};
use crate::model::{fee_settings_view, FeeSettingsModel, ParameterModel, PendingModel, PoolModel};
use crate::pool::{check_trade_settings, trade_settings_error};
use crate::types::ParameterUpdateScheduled as PendingUpdate;
use crate::types::{
    CircuitBreakerSettings, FeeSettingsUpdate, FeeTier, ParameterUpdate, PoolState,
    ProtectionSettings, ProtectionSettingsUpdate, RateLimitSettings, StateSettingsUpdate,
    TradeSettings, TradeSettingsUpdate, VolumeSettings,
};
use crate::validation::{admin_refusal, validate_admin_action};

verus! {

/// Trade settings with the present fields of `update` written over them.
pub open spec fn merged_trade(
    current: TradeSettings,
    update: TradeSettingsUpdate,
) -> TradeSettings {
    TradeSettings {
        max_size_bps: match update.max_size_bps {
            Some(v) => v,
            None => current.max_size_bps,
        },
        min_size: match update.min_size {
            Some(v) => v,
            None => current.min_size,
        },
        cooldown_seconds: match update.cooldown_seconds {
            Some(v) => v,
            None => current.cooldown_seconds,
        },
        early_trade_fee_bps: match update.early_trade_fee_bps {
            Some(v) => v,
            None => current.early_trade_fee_bps,
        },
        early_trade_window_seconds: match update.early_trade_window_seconds {
            Some(v) => v,
            None => current.early_trade_window_seconds,
        },
        last_trade_time: current.last_trade_time,
    }
}

/// The pool with new protective limits written over the old.
pub open spec fn with_protection(pool: PoolModel, update: ProtectionSettingsUpdate) -> PoolModel {
    PoolModel {
        volume: VolumeSettings { daily_limit: update.max_daily_volume, ..pool.volume },
        protection: ProtectionSettings {
            max_price_impact: update.max_price_impact_bps,
            max_slippage: update.max_slippage_bps,
            blacklist_enabled: update.blacklist_enabled,
            ..pool.protection
        },
        rate_limit: RateLimitSettings {
            max_calls: update.rate_limit_max,
            window_seconds: update.rate_limit_window,
            ..pool.rate_limit
        },
        circuit_breaker: CircuitBreakerSettings {
            threshold: update.circuit_breaker_threshold,
            cooldown: update.circuit_breaker_cooldown,
            ..pool.circuit_breaker
        },
        ..pool
    }
}

/// The pool with the present lifecycle flags of `update` written over the old.
pub open spec fn with_state(pool: PoolModel, update: StateSettingsUpdate) -> PoolModel {
    PoolModel {
        is_paused: match update.is_paused {
            Some(v) => v,
            None => pool.is_paused,
        },
        fee_tiers_locked: match update.fee_tiers_locked {
            Some(v) => v,
            None => pool.fee_tiers_locked,
        },
        ..pool
    }
}

/// The pool after the trade part of a bundle, if present, was applied.
pub open spec fn with_trade_part(pool: PoolModel, part: Option<TradeSettingsUpdate>) -> PoolModel {
    match part {
        Some(t) => PoolModel { trade: merged_trade(pool.trade, t), ..pool },
        None => pool,
    }
}

/// The pool after the protection part of a bundle, if present, was applied.
pub open spec fn with_protection_part(pool: PoolModel, part: Option<ProtectionSettingsUpdate>)
    -> PoolModel {
    match part {
        Some(p) => with_protection(pool, p),
        None => pool,
    }
}

/// The pool after the fee part of a bundle, if it holds tiers, was applied.
pub open spec fn with_fee_part(pool: PoolModel, part: Option<FeeSettingsModel>) -> PoolModel {
    match part {
        Some(FeeSettingsModel { fee_tiers: Some(tiers) }) => PoolModel { fee_tiers: tiers, ..pool },
        _ => pool,
    }
}

/// The pool after the state part of a bundle, if present, was applied.
pub open spec fn with_state_part(pool: PoolModel, part: Option<StateSettingsUpdate>) -> PoolModel {
    match part {
        Some(s) => with_state(pool, s),
        None => pool,
    }
}

/// The pool after every present part of `bundle` was applied and the pending slot cleared.
pub open spec fn applied(pool: PoolModel, bundle: ParameterModel) -> PoolModel {
    with_state_part(
        with_fee_part(
            with_protection_part(
                with_trade_part(PoolModel { pending_update: None, ..pool }, bundle.trade_settings),
                bundle.protection_settings,
            ),
            bundle.fee_settings,
        ),
        bundle.state_settings,
    )
}

/// What is wrong with the trade part of a bundle, if anything: the merged
/// settings must be valid.
pub open spec fn trade_part_error(pool: PoolModel, bundle: ParameterModel) -> Option<ErrorCode> {
    match bundle.trade_settings {
        Some(t) => trade_settings_error(merged_trade(pool.trade, t)),
        None => None,
    }
}

/// What is wrong with the protection part of a bundle, if anything: the
/// breaker's window must stay at least as long as its cooldown.
pub open spec fn protection_part_error(pool: PoolModel, bundle: ParameterModel) -> Option<
    ErrorCode,
> {
    match bundle.protection_settings {
        Some(p) => if pool.circuit_breaker.window < p.circuit_breaker_cooldown {
            Some(ErrorCode::InvalidParameterRelationship)
        } else {
            None
        },
        None => None,
    }
}

/// What is wrong with the fee part of a bundle, if anything: a locked
/// schedule takes no new tiers, and new tiers must be a valid schedule.
pub open spec fn fee_part_error(pool: PoolModel, bundle: ParameterModel) -> Option<ErrorCode> {
    match bundle.fee_settings {
        Some(FeeSettingsModel { fee_tiers: Some(tiers) }) => if pool.fee_tiers_locked {
            Some(ErrorCode::FeeTiersLocked)
        } else {
            fee_tiers_error(tiers)
        },
        _ => None,
    }
}

/// The first fault of a bundle against the pool as it stands, if it has one.
pub open spec fn bundle_error(pool: PoolModel, bundle: ParameterModel) -> Option<ErrorCode> {
    if trade_part_error(pool, bundle) is Some {
        trade_part_error(pool, bundle)
    } else if protection_part_error(pool, bundle) is Some {
        protection_part_error(pool, bundle)
    } else {
        fee_part_error(pool, bundle)
    }
}

/// Whether applying a bundle now would leave the counters over their new
/// limits: tracked volume over the daily limit, or the call count over the
/// rate limit.
pub open spec fn overtaken_by_counters(pool: PoolModel, bundle: ParameterModel) -> bool {
    bundle.protection_settings matches Some(p) && (p.max_daily_volume < pool.volume.current_volume
        || p.rate_limit_max < pool.rate_limit.count)
}

/// Scheduling `bundle` at `now`: refused to anyone but the admin, for a
/// faulty bundle, and where the timelock target does not fit. The bundle
/// takes the pending slot, replacing what was there.
pub open spec fn schedule_outcome(pool: PoolModel, admin: Address, bundle: ParameterModel, now: i64)
    -> Result<(PoolModel, ParameterUpdateScheduled), ErrorCode> {
    if let Some(e) = admin_refusal(pool, admin, now) {
        Err(e)
    } else if let Some(e) = bundle_error(pool, bundle) {
        Err(e)
    } else if now + PARAMETER_UPDATE_TIMELOCK > i64::MAX {
        Err(ErrorCode::Overflow)
    } else {
        Ok(
            (
                PoolModel {
                    pending_update: Some(
                        PendingModel {
                            update: bundle,
                            scheduled_time: (now + PARAMETER_UPDATE_TIMELOCK) as i64,
                        },
                    ),
                    ..pool
                },
                ParameterUpdateScheduled {
                    pool: pool.pool_id,
                    admin_pubkey: admin,
                    scheduled_time: (now + PARAMETER_UPDATE_TIMELOCK) as i64,
                },
            ),
        )
    }
}

/// Cancelling the pending bundle at `now`: refused to anyone but the admin
/// and where nothing is pending. The discarded bundle is handed back.
pub open spec fn cancel_outcome(pool: PoolModel, admin: Address, now: i64) -> Result<
    (PoolModel, ParameterModel),
    ErrorCode,
> {
    if let Some(e) = admin_refusal(pool, admin, now) {
        Err(e)
    } else {
        match pool.pending_update {
            None => Err(ErrorCode::NoPendingUpdate),
            Some(pending) => Ok((PoolModel { pending_update: None, ..pool }, pending.update)),
        }
    }
}

/// Applying the pending bundle at `now`: refused to anyone but the admin,
/// where nothing is pending, before the scheduled time, for a bundle that
/// has become faulty, and where the counters stand over the new limits. The
/// applied bundle is handed back.
pub open spec fn apply_outcome(pool: PoolModel, admin: Address, now: i64) -> Result<
    (PoolModel, ParameterModel),
    ErrorCode,
> {
    if let Some(e) = admin_refusal(pool, admin, now) {
        Err(e)
    } else {
        match pool.pending_update {
            None => Err(ErrorCode::NoPendingUpdate),
            Some(pending) => if now < pending.scheduled_time {
                Err(ErrorCode::TimelockNotExpired)
            } else if let Some(e) = bundle_error(pool, pending.update) {
                Err(e)
            } else if overtaken_by_counters(pool, pending.update) {
                Err(ErrorCode::InvalidParameterRelationship)
            } else {
                Ok((applied(pool, pending.update), pending.update))
            },
        }
    }
}

/// The bundle that unlocks the fee schedule and changes nothing else.
pub open spec fn unlock_bundle() -> ParameterModel {
    ParameterModel {
        trade_settings: None,
        protection_settings: None,
        fee_settings: None,
        state_settings: Some(StateSettingsUpdate { is_paused: None, fee_tiers_locked: Some(false) }),
    }
}

/// Scheduling the unlock of the fee schedule at `now`: refused to anyone but
/// the admin and where the schedule is not locked. The unlock goes through
/// the timelock like any bundle and takes the pending slot.
pub open spec fn unlock_outcome(pool: PoolModel, admin: Address, now: i64) -> Result<
    (PoolModel, FeeTiersUnlockScheduled),
    ErrorCode,
> {
    if let Some(e) = admin_refusal(pool, admin, now) {
        Err(e)
    } else if !pool.fee_tiers_locked {
        Err(ErrorCode::FeeTiersNotLocked)
    } else if now + PARAMETER_UPDATE_TIMELOCK > i64::MAX {
        Err(ErrorCode::Overflow)
    } else {
        Ok(
            (
                PoolModel {
                    pending_update: Some(
                        PendingModel {
                            update: unlock_bundle(),
                            scheduled_time: (now + PARAMETER_UPDATE_TIMELOCK) as i64,
                        },
                    ),
                    ..pool
                },
                FeeTiersUnlockScheduled {
                    pool: pool.pool_id,
                    admin_pubkey: admin,
                    scheduled_time: (now + PARAMETER_UPDATE_TIMELOCK) as i64,
                },
            ),
        )
    }
}

/// Before the scheduled time an apply by the admin fails with
/// `TimelockNotExpired` and changes nothing.
pub proof fn lemma_apply_before_schedule(pool: PoolModel, admin: Address, now: i64)
    requires
        !pool.is_locked,
        admin_refusal(pool, admin, now) is None,
        pool.pending_update matches Some(pending) && now < pending.scheduled_time,
    ensures
        guarded(pool.is_locked, apply_outcome(pool, admin, now)) == Err::<
            (PoolModel, ParameterModel),
            ErrorCode,
        >(ErrorCode::TimelockNotExpired),
{
}

/// From the scheduled time on, an apply by the admin of a bundle that is
/// still faultless succeeds, puts the bundle into effect and clears the slot.
pub proof fn lemma_apply_after_schedule(pool: PoolModel, admin: Address, now: i64)
    requires
        !pool.is_locked,
        admin_refusal(pool, admin, now) is None,
        pool.pending_update matches Some(pending) && now >= pending.scheduled_time && bundle_error(
            pool,
            pending.update,
        ) is None && !overtaken_by_counters(pool, pending.update),
    ensures
        guarded(pool.is_locked, apply_outcome(pool, admin, now)) matches Ok((next, bundle))
            && next.pending_update is None && bundle == pool.pending_update->0.update && next
            == applied(pool, bundle),
{
}

/// A bundle that was scheduled can be applied by the same admin exactly
/// `PARAMETER_UPDATE_TIMELOCK` seconds later and not a second before, as
/// long as the pool has not changed under it.
pub proof fn lemma_schedule_then_apply(
    pool: PoolModel,
    admin: Address,
    bundle: ParameterModel,
    now: i64,
    later: i64,
)
    requires
        schedule_outcome(pool, admin, bundle, now) is Ok,
        later > 0,
        !overtaken_by_counters(pool, bundle),
    ensures
        ({
            let scheduled = schedule_outcome(pool, admin, bundle, now)->Ok_0.0;
            if later < now + PARAMETER_UPDATE_TIMELOCK {
                apply_outcome(scheduled, admin, later) == Err::<
                    (PoolModel, ParameterModel),
                    ErrorCode,
                >(ErrorCode::TimelockNotExpired)
            } else {
                apply_outcome(scheduled, admin, later) == Ok::<
                    (PoolModel, ParameterModel),
                    ErrorCode,
                >((applied(scheduled, bundle), bundle))
            }
        }),
{
}

/// What a cancel owes: on success the cleared slot and a notification that
/// carries the discarded bundle, on refusal the error and an untouched state.
pub open spec fn cancelled_as(
    outcome: Result<(PoolModel, ParameterModel), ErrorCode>,
    before: PoolState,
    after: PoolState,
    admin: Address,
    now: i64,
    result: Result<ParameterUpdateCancelled, ErrorCode>,
) -> bool {
    match outcome {
        Ok((next, bundle)) => {
            &&& after@ =~= next
            &&& result matches Ok(event)
            &&& event.pool == before.pool_id
            &&& event.admin_pubkey == admin
            &&& event.ts == now
            &&& event.bundle() =~= bundle
        },
        Err(e) => after == before && result == Err::<ParameterUpdateCancelled, ErrorCode>(e),
    }
}

/// What an apply owes: on success the new settings, the notification and the
/// bundle that went into effect, on refusal the error and an untouched state.
pub open spec fn applied_as(
    outcome: Result<(PoolModel, ParameterModel), ErrorCode>,
    before: PoolState,
    after: PoolState,
    admin: Address,
    now: i64,
    result: Result<(ParametersUpdated, ParameterUpdate), ErrorCode>,
) -> bool {
    match outcome {
        Ok((next, bundle)) => {
            &&& after@ =~= next
            &&& result matches Ok((event, done))
            &&& event == (ParametersUpdated { pool: before.pool_id, admin_pubkey: admin, ts: now })
            &&& done@ =~= bundle
        },
        Err(e) => after == before && result == Err::<(ParametersUpdated, ParameterUpdate), ErrorCode>(
            e,
        ),
    }
}

/// Writes the present fields of `update` over `current`.
pub fn merge_trade_settings(current: TradeSettings, update: &TradeSettingsUpdate) -> (merged:
    TradeSettings)
    ensures
        merged == merged_trade(current, *update),
{
    TradeSettings {
        max_size_bps: match update.max_size_bps {
            Some(v) => v,
            None => current.max_size_bps,
        },
        min_size: match update.min_size {
            Some(v) => v,
            None => current.min_size,
        },
        cooldown_seconds: match update.cooldown_seconds {
            Some(v) => v,
            None => current.cooldown_seconds,
        },
        early_trade_fee_bps: match update.early_trade_fee_bps {
            Some(v) => v,
            None => current.early_trade_fee_bps,
        },
        early_trade_window_seconds: match update.early_trade_window_seconds {
            Some(v) => v,
            None => current.early_trade_window_seconds,
        },
        last_trade_time: current.last_trade_time,
    }
}

/// Checks a bundle against the pool as it stands.
pub fn check_bundle(pool_state: &PoolState, bundle: &ParameterUpdate) -> (result: Result<
    (),
    ErrorCode,
>)
    ensures
        result == match bundle_error(pool_state@, bundle@) {
            Some(e) => Err::<(), ErrorCode>(e),
            None => Ok::<(), ErrorCode>(()),
        },
{
    match &bundle.trade_settings {
        Some(t) => {
            let merged = merge_trade_settings(pool_state.trade, t);
            check_trade_settings(&merged)?;
        },
        None => {},
    }
    match &bundle.protection_settings {
        Some(p) => {
            if pool_state.circuit_breaker.window < p.circuit_breaker_cooldown {
                return Err(ErrorCode::InvalidParameterRelationship);
            }
        },
        None => {},
    }
    match &bundle.fee_settings {
        Some(f) => match &f.fee_tiers {
            Some(tiers) => {
                if pool_state.fee_tiers_locked {
                    return Err(ErrorCode::FeeTiersLocked);
                }
                validate_fee_tiers(tiers.as_slice())?;
            },
            None => {},
        },
        None => {},
    }
    Ok(())
}

/// Copies a fee schedule.
fn copy_tiers(tiers: &Vec<FeeTier>) -> (copy: Vec<FeeTier>)
    ensures
        copy@ == tiers@,
{
    let mut copy: Vec<FeeTier> = Vec::new();
    let mut i: usize = 0;
    while i < tiers.len()
        invariant
            i <= tiers@.len(),
            copy@ == tiers@.take(i as int),
        decreases tiers@.len() - i,
    {
        copy.push(tiers[i]);
        assert(copy@ =~= tiers@.take(i + 1));
        i = i + 1;
    }
    assert(tiers@.take(tiers@.len() as int) =~= tiers@);
    copy
}

fn schedule_unguarded(
    pool_state: &mut PoolState,
    admin: &Address,
    settings: ParameterUpdate,
    now: i64,
) -> (result: Result<ParameterUpdateScheduled, ErrorCode>)
    requires
        old(pool_state).wf(),
    ensures
        final(pool_state).wf(),
        final(pool_state).is_locked == old(pool_state).is_locked,
        meets_model(
            schedule_outcome(old(pool_state)@, *admin, settings@, now),
            *old(pool_state),
            *final(pool_state),
            result,
        ),
{
    validate_admin_action(pool_state, admin, now)?;
    check_bundle(pool_state, &settings)?;
    if now > i64::MAX - PARAMETER_UPDATE_TIMELOCK as i64 {
        return Err(ErrorCode::Overflow);
    }
    let scheduled_time = now + PARAMETER_UPDATE_TIMELOCK as i64;
    pool_state.pending_update = Some(
        PendingUpdate { update: settings, scheduled_time },
    );
    Ok(ParameterUpdateScheduled { pool: pool_state.pool_id, admin_pubkey: *admin, scheduled_time })
}

/// Schedules a bundle of parameter changes. It can be applied once
/// `PARAMETER_UPDATE_TIMELOCK` seconds have passed.
pub fn schedule_parameter_update(
    pool_state: &mut PoolState,
    admin: &Address,
    settings: ParameterUpdate,
    current_time: i64,
) -> (result: Result<ParameterUpdateScheduled, ErrorCode>)
    requires
        old(pool_state).wf(),
    ensures
        final(pool_state).wf(),
        final(pool_state).is_locked == old(pool_state).is_locked,
        meets_model(
            guarded(
                old(pool_state).is_locked,
                schedule_outcome(old(pool_state)@, *admin, settings@, current_time),
            ),
            *old(pool_state),
            *final(pool_state),
            result,
        ),
{
    let guard = ReentrancyGuard::new(pool_state)?;
    let result = schedule_unguarded(pool_state, admin, settings, current_time);
    guard.release(pool_state);
    result
}

fn unlock_unguarded(pool_state: &mut PoolState, admin: &Address, now: i64) -> (result: Result<
    FeeTiersUnlockScheduled,
    ErrorCode,
>)
    requires
        old(pool_state).wf(),
    ensures
        final(pool_state).wf(),
        final(pool_state).is_locked == old(pool_state).is_locked,
        meets_model(
            unlock_outcome(old(pool_state)@, *admin, now),
            *old(pool_state),
            *final(pool_state),
            result,
        ),
{
    validate_admin_action(pool_state, admin, now)?;
    if !pool_state.fee_tiers_locked {
        return Err(ErrorCode::FeeTiersNotLocked);
    }
    if now > i64::MAX - PARAMETER_UPDATE_TIMELOCK as i64 {
        return Err(ErrorCode::Overflow);
    }
    let scheduled_time = now + PARAMETER_UPDATE_TIMELOCK as i64;
    let update = ParameterUpdate {
        trade_settings: None,
        protection_settings: None,
        fee_settings: None,
        state_settings: Some(StateSettingsUpdate { is_paused: None, fee_tiers_locked: Some(false) }),
    };
    pool_state.pending_update = Some(PendingUpdate { update, scheduled_time });
    Ok(FeeTiersUnlockScheduled { pool: pool_state.pool_id, admin_pubkey: *admin, scheduled_time })
}

/// Schedules the unlock of the fee schedule. The schedule stays locked until
/// the unlock has been applied like any other bundle.
pub fn unlock_fee_tiers(
    pool_state: &mut PoolState,
    admin: &Address,
    current_time: i64,
) -> (result: Result<FeeTiersUnlockScheduled, ErrorCode>)
    requires
        old(pool_state).wf(),
    ensures
        final(pool_state).wf(),
        final(pool_state).is_locked == old(pool_state).is_locked,
        meets_model(
            guarded(old(pool_state).is_locked, unlock_outcome(old(pool_state)@, *admin, current_time)),
            *old(pool_state),
            *final(pool_state),
            result,
        ),
{
    let guard = ReentrancyGuard::new(pool_state)?;
    let result = unlock_unguarded(pool_state, admin, current_time);
    guard.release(pool_state);
    result
}

fn cancel_unguarded(pool_state: &mut PoolState, admin: &Address, now: i64) -> (result: Result<
    ParameterUpdateCancelled,
    ErrorCode,
>)
    requires
        old(pool_state).wf(),
    ensures
        final(pool_state).wf(),
        final(pool_state).is_locked == old(pool_state).is_locked,
        cancelled_as(
            cancel_outcome(old(pool_state)@, *admin, now),
            *old(pool_state),
            *final(pool_state),
            *admin,
            now,
            result,
        ),
{
    validate_admin_action(pool_state, admin, now)?;
    match pool_state.pending_update.take() {
        None => Err(ErrorCode::NoPendingUpdate),
        Some(pending) => Ok(
            ParameterUpdateCancelled {
                pool: pool_state.pool_id,
                admin_pubkey: *admin,
                ts: now,
                trade_settings: pending.update.trade_settings,
                protection_settings: pending.update.protection_settings,
                fee_settings: pending.update.fee_settings,
                state_settings: pending.update.state_settings,
            },
        ),
    }
}

/// Discards the pending bundle.
pub fn cancel_parameter_update(
    pool_state: &mut PoolState,
    admin: &Address,
    current_time: i64,
) -> (result: Result<ParameterUpdateCancelled, ErrorCode>)
    requires
        old(pool_state).wf(),
    ensures
        final(pool_state).wf(),
        final(pool_state).is_locked == old(pool_state).is_locked,
        cancelled_as(
            guarded(old(pool_state).is_locked, cancel_outcome(old(pool_state)@, *admin, current_time)),
            *old(pool_state),
            *final(pool_state),
            *admin,
            current_time,
            result,
        ),
{
    let guard = ReentrancyGuard::new(pool_state)?;
    let result = cancel_unguarded(pool_state, admin, current_time);
    guard.release(pool_state);
    result
}

/// Empties the pending slot; the same as cancelling the pending bundle.
pub fn reset_pending_update(
    pool_state: &mut PoolState,
    admin: &Address,
    current_time: i64,
) -> (result: Result<ParameterUpdateCancelled, ErrorCode>)
    requires
        old(pool_state).wf(),
    ensures
        final(pool_state).wf(),
        final(pool_state).is_locked == old(pool_state).is_locked,
        cancelled_as(
            guarded(old(pool_state).is_locked, cancel_outcome(old(pool_state)@, *admin, current_time)),
            *old(pool_state),
            *final(pool_state),
            *admin,
            current_time,
            result,
        ),
{
    cancel_parameter_update(pool_state, admin, current_time)
}

/// Tells whether the pending bundle can go into effect at `now`.
fn check_pending(pool_state: &PoolState, now: i64) -> (result: Result<(), ErrorCode>)
    ensures
        result == match pool_state@.pending_update {
            None => Err::<(), ErrorCode>(ErrorCode::NoPendingUpdate),
            Some(pending) => if now < pending.scheduled_time {
                Err::<(), ErrorCode>(ErrorCode::TimelockNotExpired)
            } else if let Some(e) = bundle_error(pool_state@, pending.update) {
                Err::<(), ErrorCode>(e)
            } else if overtaken_by_counters(pool_state@, pending.update) {
                Err::<(), ErrorCode>(ErrorCode::InvalidParameterRelationship)
            } else {
                Ok::<(), ErrorCode>(())
            },
        },
{
    match &pool_state.pending_update {
        None => Err(ErrorCode::NoPendingUpdate),
        Some(pending) => {
            if now < pending.scheduled_time {
                return Err(ErrorCode::TimelockNotExpired);
            }
            check_bundle(pool_state, &pending.update)?;
            match &pending.update.protection_settings {
                Some(p) => {
                    if p.max_daily_volume < pool_state.volume.current_volume || p.rate_limit_max
                        < pool_state.rate_limit.count {
                        return Err(ErrorCode::InvalidParameterRelationship);
                    }
                },
                None => {},
            }
            Ok(())
        },
    }
}

fn apply_trade_part(pool_state: &mut PoolState, part: &Option<TradeSettingsUpdate>)
    requires
        old(pool_state).wf(),
        *part matches Some(t) ==> trade_settings_error(merged_trade(old(pool_state).trade, t))
            is None,
    ensures
        final(pool_state).wf(),
        final(pool_state)@ =~= with_trade_part(old(pool_state)@, *part),
        final(pool_state).trader_blacklist == old(pool_state).trader_blacklist,
{
    match part {
        Some(t) => {
            pool_state.trade = merge_trade_settings(pool_state.trade, t);
        },
        None => {},
    }
}

fn apply_protection_part(pool_state: &mut PoolState, part: &Option<ProtectionSettingsUpdate>)
    requires
        old(pool_state).wf(),
        *part matches Some(p) ==> old(pool_state).circuit_breaker.window
            >= p.circuit_breaker_cooldown && p.max_daily_volume
            >= old(pool_state).volume.current_volume && p.rate_limit_max
            >= old(pool_state).rate_limit.count,
    ensures
        final(pool_state).wf(),
        final(pool_state)@ =~= with_protection_part(old(pool_state)@, *part),
        final(pool_state).trader_blacklist == old(pool_state).trader_blacklist,
{
    match part {
        Some(p) => {
            pool_state.volume.daily_limit = p.max_daily_volume;
            pool_state.protection.max_price_impact = p.max_price_impact_bps;
            pool_state.protection.max_slippage = p.max_slippage_bps;
            pool_state.protection.blacklist_enabled = p.blacklist_enabled;
            pool_state.rate_limit.max_calls = p.rate_limit_max;
            pool_state.rate_limit.window_seconds = p.rate_limit_window;
            pool_state.circuit_breaker.threshold = p.circuit_breaker_threshold;
            pool_state.circuit_breaker.cooldown = p.circuit_breaker_cooldown;
        },
        None => {},
    }
}

fn apply_fee_part(pool_state: &mut PoolState, part: &Option<FeeSettingsUpdate>)
    requires
        old(pool_state).wf(),
        fee_settings_view(*part) matches Some(FeeSettingsModel { fee_tiers: Some(tiers) })
            ==> fee_tiers_error(tiers) is None,
    ensures
        final(pool_state).wf(),
        final(pool_state)@ =~= with_fee_part(old(pool_state)@, fee_settings_view(*part)),
        final(pool_state).trader_blacklist == old(pool_state).trader_blacklist,
{
    match part {
        Some(f) => match &f.fee_tiers {
            Some(tiers) => {
                proof {
                    lemma_fee_tiers_error_iff_invalid(tiers@);
                }
                pool_state.fee_tiers = copy_tiers(tiers);
            },
            None => {},
        },
        None => {},
    }
}

fn apply_state_part(pool_state: &mut PoolState, part: &Option<StateSettingsUpdate>)
    requires
        old(pool_state).wf(),
    ensures
        final(pool_state).wf(),
        final(pool_state)@ =~= with_state_part(old(pool_state)@, *part),
        final(pool_state).trader_blacklist == old(pool_state).trader_blacklist,
{
    match part {
        Some(s) => {
            match s.is_paused {
                Some(v) => {
                    pool_state.is_paused = v;
                },
                None => {},
            }
            match s.fee_tiers_locked {
                Some(v) => {
                    pool_state.fee_tiers_locked = v;
                },
                None => {},
            }
        },
        None => {},
    }
}

fn apply_unguarded(pool_state: &mut PoolState, admin: &Address, now: i64) -> (result: Result<
    (ParametersUpdated, ParameterUpdate),
    ErrorCode,
>)
    requires
        old(pool_state).wf(),
    ensures
        final(pool_state).wf(),
        final(pool_state).is_locked == old(pool_state).is_locked,
        applied_as(
            apply_outcome(old(pool_state)@, *admin, now),
            *old(pool_state),
            *final(pool_state),
            *admin,
            now,
            result,
        ),
{
    validate_admin_action(pool_state, admin, now)?;
    check_pending(pool_state, now)?;
    let update = match pool_state.pending_update.take() {
        Some(pending) => pending.update,
        None => {
            return Err(ErrorCode::NoPendingUpdate);
        },
    };
    let ghost cleared = pool_state@;
    assert(cleared =~= (PoolModel { pending_update: None, ..old(pool_state)@ }));
    assert(bundle_error(old(pool_state)@, update@) is None);
    apply_trade_part(pool_state, &update.trade_settings);
    apply_protection_part(pool_state, &update.protection_settings);
    apply_fee_part(pool_state, &update.fee_settings);
    apply_state_part(pool_state, &update.state_settings);
    Ok((ParametersUpdated { pool: pool_state.pool_id, admin_pubkey: *admin, ts: now }, update))
}

/// Puts the pending bundle into effect once its timelock has expired. Every
/// present part is applied, absent parts and fields stay as they are, and
/// the slot is cleared.
pub fn apply_parameter_update(
    pool_state: &mut PoolState,
    admin: &Address,
    current_time: i64,
) -> (result: Result<(ParametersUpdated, ParameterUpdate), ErrorCode>)
    requires
        old(pool_state).wf(),
    ensures
        final(pool_state).wf(),
        final(pool_state).is_locked == old(pool_state).is_locked,
        applied_as(
            guarded(old(pool_state).is_locked, apply_outcome(old(pool_state)@, *admin, current_time)),
            *old(pool_state),
            *final(pool_state),
            *admin,
            current_time,
            result,
        ),
{
    let guard = ReentrancyGuard::new(pool_state)?;
    let result = apply_unguarded(pool_state, admin, current_time);
    guard.release(pool_state);
    result
}

} // verus!
