//! Checks that stand before every operation: who calls, and on what.

use vstd::prelude::*;
use crate::address::Address;
use crate::circuit_breaker::breaker_outcome;
use crate::errors::ErrorCode;
use crate::fees::{fee_tiers_error, valid_fee_tiers};
use crate::model::PoolModel;
use crate::rate_limit::admitted;
use crate::types::{FeeTier, PoolState};

verus! {

/// Why `caller` may not act as admin at `now`, if they may not.
pub open spec fn admin_refusal(pool: PoolModel, caller: Address, now: i64) -> Option<ErrorCode> {
    if caller != pool.admin {
        Some(ErrorCode::Unauthorized)
    } else if pool.is_emergency_paused {
        Some(ErrorCode::EmergencyPaused)
    } else if now <= 0 {
        Some(ErrorCode::InvalidTimestamp)
    } else {
        None
    }
}

/// Checks that `admin` is the pool's admin, that the pool is not under an
/// emergency pause, and that the time is a positive timestamp.
pub fn validate_admin_action(pool_state: &PoolState, admin: &Address, current_time: i64) -> (result:
    Result<(), ErrorCode>)
    ensures
        result == match admin_refusal(pool_state@, *admin, current_time) {
            Some(e) => Err::<(), ErrorCode>(e),
            None => Ok::<(), ErrorCode>(()),
        },
{
    if !pool_state.admin.same_as(admin) {
        return Err(ErrorCode::Unauthorized);
    }
    if pool_state.is_emergency_paused {
        return Err(ErrorCode::EmergencyPaused);
    }
    if current_time <= 0 {
        return Err(ErrorCode::InvalidTimestamp);
    }
    Ok(())
}

/// Why `caller` may not act as emergency admin at `now`, if they may not.
pub open spec fn emergency_refusal(
    pool: PoolModel,
    caller: Address,
    now: i64,
) -> Option<ErrorCode> {
    if caller != pool.emergency_admin {
        Some(ErrorCode::InvalidEmergencyAdmin)
    } else if pool.is_finalized {
        Some(ErrorCode::PoolFinalized)
    } else if now <= 0 {
        Some(ErrorCode::InvalidTimestamp)
    } else {
        None
    }
}

/// Checks that `emergency_admin` is the pool's emergency admin, that the pool
/// is not finalized, and that the time is a positive timestamp.
pub fn validate_emergency_action(
    pool_state: &PoolState,
    emergency_admin: &Address,
    current_time: i64,
) -> (result: Result<(), ErrorCode>)
    ensures
        result == match emergency_refusal(pool_state@, *emergency_admin, current_time) {
            Some(e) => Err::<(), ErrorCode>(e),
            None => Ok::<(), ErrorCode>(()),
        },
{
    if !pool_state.emergency_admin.same_as(emergency_admin) {
        return Err(ErrorCode::InvalidEmergencyAdmin);
    }
    if pool_state.is_finalized {
        return Err(ErrorCode::PoolFinalized);
    }
    if current_time <= 0 {
        return Err(ErrorCode::InvalidTimestamp);
    }
    Ok(())
}

/// Why a trade of `amount` by `trader` at `now` is turned away before any
/// fee is computed, if it is. The trader's ban is judged first, so a banned
/// trader learns of the ban whatever the amount.
pub open spec fn trade_refusal(pool: PoolModel, trader: Address, amount: u64, now: i64) -> Option<
    ErrorCode,
> {
    if pool.protection.blacklist_enabled && pool.trader_blacklist.contains(trader) {
        Some(ErrorCode::TraderBlacklisted)
    } else if pool.is_paused {
        Some(ErrorCode::PoolPaused)
    } else if pool.is_emergency_paused {
        Some(ErrorCode::EmergencyPaused)
    } else if amount == 0 {
        Some(ErrorCode::InvalidAmount)
    } else if now <= 0 {
        Some(ErrorCode::InvalidTimestamp)
    } else if pool.volume.current_volume > pool.volume.daily_limit {
        Some(ErrorCode::VolumeLimitExceeded)
    } else if admitted(pool.rate_limit, now) is Err {
        Some(ErrorCode::RateLimitExceeded)
    } else {
        match breaker_outcome(pool.circuit_breaker, pool.volume.current_volume, amount, now) {
            Ok(_) => None,
            Err(e) => Some(e),
        }
    }
}

/// Checks a trade of `amount` by `trader` against the ban list, the pause
/// flags, the volume limit, the rate limit and the circuit breaker, changing nothing.
pub fn validate_trade_parameters(
    pool_state: &PoolState,
    trader: &Address,
    amount: u64,
    current_time: i64,
) -> (result: Result<(), ErrorCode>)
    ensures
        result == match trade_refusal(pool_state@, *trader, amount, current_time) {
            Some(e) => Err::<(), ErrorCode>(e),
            None => Ok::<(), ErrorCode>(()),
        },
{
    if pool_state.protection.blacklist_enabled && pool_state.is_blacklisted(trader) {
        return Err(ErrorCode::TraderBlacklisted);
    }
    if pool_state.is_paused {
        return Err(ErrorCode::PoolPaused);
    }
    if pool_state.is_emergency_paused {
        return Err(ErrorCode::EmergencyPaused);
    }
    if amount == 0 {
        return Err(ErrorCode::InvalidAmount);
    }
    if current_time <= 0 {
        return Err(ErrorCode::InvalidTimestamp);
    }
    pool_state.check_volume_limit(current_time)?;
    pool_state.check_rate_limit(current_time)?;
    pool_state.check_circuit_breaker(amount, current_time)?;
    Ok(())
}

/// Validates a fee schedule for `pool_state`.
pub fn validate_fee_parameters(pool_state: &PoolState, fee_tiers: &[FeeTier]) -> (result: Result<
    (),
    ErrorCode,
>)
    ensures
        result == match fee_tiers_error(fee_tiers@) {
            Some(e) => Err::<(), ErrorCode>(e),
            None => Ok::<(), ErrorCode>(()),
        },
        result is Ok <==> valid_fee_tiers(fee_tiers@),
{
    pool_state.validate_fee_parameters(fee_tiers)
}

impl PoolState {
    /// Fails with `PoolPaused` while the admin pause is on.
    pub fn check_pause(&self) -> (result: Result<(), ErrorCode>)
        ensures
            result == if self.is_paused {
                Err::<(), ErrorCode>(ErrorCode::PoolPaused)
            } else {
                Ok::<(), ErrorCode>(())
            },
    {
        if self.is_paused {
            return Err(ErrorCode::PoolPaused);
        }
        Ok(())
    }

    /// Fails with `PoolNotPaused` while the admin pause is off.
    pub fn check_not_paused(&self) -> (result: Result<(), ErrorCode>)
        ensures
            result == if self.is_paused {
                Ok::<(), ErrorCode>(())
            } else {
                Err::<(), ErrorCode>(ErrorCode::PoolNotPaused)
            },
    {
        if !self.is_paused {
            return Err(ErrorCode::PoolNotPaused);
        }
        Ok(())
    }
}

} // verus!
