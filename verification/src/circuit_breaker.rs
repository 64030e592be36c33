//! Circuit breaker on cumulative volume.
//!
//! The trade that takes the volume over the threshold while the breaker is
//! cool is admitted and trips the breaker. From then on, and until the
//! cooldown has passed, every trade that would leave the volume over the
//! threshold is refused.

use vstd::prelude::*;
use crate::errors::ErrorCode;
use crate::events::CircuitBreakerTriggered;
use crate::model::PoolModel;
use crate::types::{CircuitBreakerSettings, PoolState};

verus! {

/// Whether the breaker is still cooling down at `now`.
pub open spec fn breaker_hot(breaker: CircuitBreakerSettings, now: i64) -> bool {
    now - breaker.last_trigger < breaker.cooldown
}

/// Whether `delta` more volume is admitted on top of `volume` at `now`, and
/// if so whether it trips the breaker.
pub open spec fn breaker_outcome(
    breaker: CircuitBreakerSettings,
    volume: u64,
    delta: u64,
    now: i64,
) -> Result<bool, ErrorCode> {
    if volume + delta > u64::MAX {
        Err(ErrorCode::Overflow)
    } else if volume + delta > breaker.threshold {
        if breaker_hot(breaker, now) {
            Err(ErrorCode::CircuitBreakerCooldown)
        } else {
            Ok(true)
        }
    } else {
        Ok(false)
    }
}

/// The breaker after `delta` more volume was admitted at `now`.
pub open spec fn breaker_after(
    breaker: CircuitBreakerSettings,
    volume: u64,
    delta: u64,
    now: i64,
) -> CircuitBreakerSettings {
    if breaker_outcome(breaker, volume, delta, now) == Ok::<bool, ErrorCode>(true) {
        CircuitBreakerSettings { last_trigger: now, ..breaker }
    } else {
        breaker
    }
}

/// Once tripped, the breaker admits no volume that stays over the threshold
/// before `last_trigger + cooldown`.
pub proof fn lemma_breaker_refuses_during_cooldown(
    breaker: CircuitBreakerSettings,
    volume: u64,
    delta: u64,
    now: i64,
)
    requires
        now < breaker.last_trigger + breaker.cooldown,
        volume + delta > breaker.threshold,
    ensures
        breaker_outcome(breaker, volume, delta, now) is Err,
{
}

/// A trade that trips the breaker at `now` starts a cooldown: any later
/// volume over the threshold is refused until `now + cooldown`.
pub proof fn lemma_tripped_breaker_cools_down(
    breaker: CircuitBreakerSettings,
    volume: u64,
    delta: u64,
    now: i64,
    later_volume: u64,
    later_delta: u64,
    later: i64,
)
    requires
        breaker_outcome(breaker, volume, delta, now) == Ok::<bool, ErrorCode>(true),
        later < now + breaker.cooldown,
        later_volume + later_delta > breaker.threshold,
    ensures
        breaker_outcome(breaker_after(breaker, volume, delta, now), later_volume, later_delta, later)
            is Err,
{
}

impl CircuitBreakerSettings {
    /// Judges `delta` more volume on top of `volume` at `now`; says whether it trips the breaker.
    pub fn check(&self, volume: u64, delta: u64, now: i64) -> (result: Result<bool, ErrorCode>)
        ensures
            result == breaker_outcome(*self, volume, delta, now),
    {
        let total = match volume.checked_add(delta) {
            Some(t) => t,
            None => {
                return Err(ErrorCode::Overflow);
            },
        };
        if total > self.threshold {
            let since: i128 = now as i128 - self.last_trigger as i128;
            if since < self.cooldown as i128 {
                return Err(ErrorCode::CircuitBreakerCooldown);
            }
            return Ok(true);
        }
        Ok(false)
    }
}

/// Why the breaker refuses `amount` at `now`, if it does.
pub open spec fn breaker_refusal(pool: PoolModel, amount: u64, now: i64) -> Option<ErrorCode> {
    if now <= 0 {
        Some(ErrorCode::InvalidTimestamp)
    } else {
        match breaker_outcome(pool.circuit_breaker, pool.volume.current_volume, amount, now) {
            Ok(_) => None,
            Err(e) => Some(e),
        }
    }
}

/// The notification of the trip that `amount` at `now` causes, if it causes one.
pub open spec fn breaker_event(pool: PoolModel, amount: u64, now: i64) -> Option<
    CircuitBreakerTriggered,
> {
    if breaker_outcome(pool.circuit_breaker, pool.volume.current_volume, amount, now) == Ok::<
        bool,
        ErrorCode,
    >(true) {
        Some(
            CircuitBreakerTriggered {
                pool: pool.pool_id,
                volume_24h: (pool.volume.current_volume + amount) as u64,
                threshold: pool.circuit_breaker.threshold,
                ts: now,
            },
        )
    } else {
        None
    }
}

impl PoolState {
    /// Tells whether the breaker admits a trade of `amount` at `current_time`.
    pub fn check_circuit_breaker(&self, amount: u64, current_time: i64) -> (result: Result<
        (),
        ErrorCode,
    >)
        ensures
            result == match breaker_refusal(self@, amount, current_time) {
                Some(e) => Err::<(), ErrorCode>(e),
                None => Ok::<(), ErrorCode>(()),
            },
    {
        if current_time <= 0 {
            return Err(ErrorCode::InvalidTimestamp);
        }
        match self.circuit_breaker.check(self.volume.current_volume, amount, current_time) {
            Ok(_) => Ok(()),
            Err(e) => Err(e),
        }
    }

    /// Judges a trade of `amount` at `current_time` and trips the breaker
    /// where the trade takes the volume over the threshold.
    pub fn update_circuit_breaker(&mut self, amount: u64, current_time: i64) -> (result: Result<
        Option<CircuitBreakerTriggered>,
        ErrorCode,
    >)
        requires
            old(self).wf(),
        ensures
            final(self).wf(),
            match result {
                Ok(event) => {
                    &&& breaker_refusal(old(self)@, amount, current_time) is None
                    &&& *final(self) == (PoolState {
                        circuit_breaker: breaker_after(
                            old(self).circuit_breaker,
                            old(self).volume.current_volume,
                            amount,
                            current_time,
                        ),
                        ..*old(self)
                    })
                    &&& event == breaker_event(old(self)@, amount, current_time)
                },
                Err(e) => breaker_refusal(old(self)@, amount, current_time) == Some(e)
                    && *final(self) == *old(self),
            },
    {
        if current_time <= 0 {
            return Err(ErrorCode::InvalidTimestamp);
        }
        let tripped = self.circuit_breaker.check(self.volume.current_volume, amount, current_time)?;
        if tripped {
            self.circuit_breaker.last_trigger = current_time;
            Ok(
                Some(
                    CircuitBreakerTriggered {
                        pool: self.pool_id,
                        volume_24h: self.volume.current_volume + amount,
                        threshold: self.circuit_breaker.threshold,
                        ts: current_time,
                    },
                ),
            )
        } else {
            Ok(None)
        }
    }
}

} // verus!
