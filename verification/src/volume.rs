//! Tracked trade volume: hourly decay and the daily cap.

use vstd::prelude::*;
use crate::constants::{
    BPS_DENOMINATOR, DEFAULT_DECAY_RATE_BPS, SECONDS_PER_HOUR, VOLUME_RESET_HOURS,
};
use crate::errors::ErrorCode;
use crate::events::VolumeDecayed;
use crate::invariants::valid_volume;
use crate::model::PoolModel;
use crate::types::{PoolState, VolumeSettings};

verus! {

/// Whole hours from `last_reset` to `now`; none where `now` is not later.
pub open spec fn hours_passed(volume: VolumeSettings, now: i64) -> int {
    if now > volume.last_reset {
        (now - volume.last_reset) / (SECONDS_PER_HOUR as int)
    } else {
        0
    }
}

/// The share that is left after `hours` whole hours at `rate` basis points
/// per hour, in basis points: linear, and never below nothing.
pub open spec fn remaining_bps(rate: u64, hours: int) -> int {
    if hours * rate >= BPS_DENOMINATOR {
        0
    } else {
        BPS_DENOMINATOR - hours * rate
    }
}

/// What is left of `current` after `hours` whole hours at `rate` basis points
/// per hour, and nothing from `VOLUME_RESET_HOURS` hours on.
pub open spec fn decayed_volume(current: u64, rate: u64, hours: int) -> int {
    if hours >= VOLUME_RESET_HOURS {
        0
    } else {
        current * remaining_bps(rate, hours) / (BPS_DENOMINATOR as int)
    }
}

/// The settings after decay at `now`: untouched while no whole hour has passed.
pub open spec fn decayed(volume: VolumeSettings, now: i64) -> VolumeSettings {
    if hours_passed(volume, now) > 0 {
        VolumeSettings {
            current_volume: decayed_volume(
                volume.current_volume,
                volume.decay_rate,
                hours_passed(volume, now),
            ) as u64,
            last_reset: now,
            ..volume
        }
    } else {
        volume
    }
}

/// The settings after `amount` more volume, or why it is refused.
pub open spec fn with_added_volume(volume: VolumeSettings, amount: u64) -> Result<
    VolumeSettings,
    ErrorCode,
> {
    if volume.current_volume + amount > u64::MAX {
        Err(ErrorCode::Overflow)
    } else if volume.current_volume + amount > volume.daily_limit {
        Err(ErrorCode::DailyVolumeLimitExceeded)
    } else {
        Ok(VolumeSettings { current_volume: (volume.current_volume + amount) as u64, ..volume })
    }
}

/// Decay never raises the tracked volume.
pub proof fn lemma_decay_shrinks(current: u64, rate: u64, hours: int)
    requires
        hours >= 0,
    ensures
        0 <= decayed_volume(current, rate, hours) <= current,
{
    if hours < VOLUME_RESET_HOURS {
        let share = remaining_bps(rate, hours);
        assert(0 <= hours * rate) by (nonlinear_arith)
            requires
                0 <= hours,
                0 <= rate,
        ;
        assert(0 <= current * share / 10000 <= current) by (nonlinear_arith)
            requires
                0 <= share <= 10000,
                0 <= current,
        ;
    }
}

/// At the rate of one percent per hour, `DEFAULT_DECAY_RATE_BPS`, what is left
/// after fewer than `VOLUME_RESET_HOURS` hours is `current * (100 - hours) / 100`.
pub proof fn lemma_decay_at_default_rate(current: u64, hours: int)
    requires
        0 <= hours < VOLUME_RESET_HOURS,
    ensures
        decayed_volume(current, DEFAULT_DECAY_RATE_BPS, hours) == current * (100 - hours) / 100,
{
    let left = 100 - hours;
    assert(hours * 100 < 10000);
    assert(remaining_bps(DEFAULT_DECAY_RATE_BPS, hours) == left * 100);
    assert(current * (left * 100) / 10000 == current * left / 100) by (nonlinear_arith)
        requires
            0 <= current,
            0 < left,
    ;
}

/// A second decay within the hour that follows a decay changes nothing.
pub proof fn lemma_decay_again_within_hour(volume: VolumeSettings, first: i64, second: i64)
    requires
        hours_passed(volume, first) > 0,
        first <= second < first + SECONDS_PER_HOUR,
    ensures
        hours_passed(decayed(volume, first), second) == 0,
        decayed(decayed(volume, first), second) == decayed(volume, first),
{
}

/// Decay is a no-op whenever no whole hour has passed since the last one, so
/// two calls that see the same count of whole hours differ in nothing: the
/// second leaves what the first left.
pub proof fn lemma_decay_idempotent_within_hour(volume: VolumeSettings, first: i64, second: i64)
    requires
        first <= second,
        hours_passed(volume, first) == hours_passed(volume, second),
    ensures
        hours_passed(volume, first) == 0 ==> decayed(volume, first) == volume,
        decayed(decayed(volume, first), second) == decayed(volume, first),
{
    if hours_passed(volume, first) > 0 {
        let d = (first - volume.last_reset) as int;
        let e = (second - volume.last_reset) as int;
        assert(e - d < 3600) by (nonlinear_arith)
            requires
                0 <= d <= e,
                d / 3600 == e / 3600,
        ;
    }
}

impl VolumeSettings {
    /// Applies the decay that is due at `now`. Where a whole hour has passed
    /// it returns the volume before, the volume after and the hours passed.
    pub fn decay(&mut self, now: i64) -> (change: Option<(u64, u64, u64)>)
        ensures
            *final(self) == decayed(*old(self), now),
            change == if hours_passed(*old(self), now) > 0 {
                Some(
                    (
                        old(self).current_volume,
                        final(self).current_volume,
                        hours_passed(*old(self), now) as u64,
                    ),
                )
            } else {
                None::<(u64, u64, u64)>
            },
            final(self).current_volume <= old(self).current_volume,
    {
        if now <= self.last_reset {
            return None;
        }
        let elapsed: i128 = now as i128 - self.last_reset as i128;
        let hours: i128 = elapsed / (SECONDS_PER_HOUR as i128);
        if hours == 0 {
            return None;
        }
        proof {
            lemma_decay_shrinks(self.current_volume, self.decay_rate, hours as int);
        }
        let before = self.current_volume;
        let after: u64 = if hours >= VOLUME_RESET_HOURS as i128 {
            0
        } else {
            assert(0 <= hours * self.decay_rate <= 24 * u64::MAX) by (nonlinear_arith)
                requires
                    0 < hours < 24,
                    0 <= self.decay_rate <= u64::MAX,
            {
            }
            let spent: u128 = (hours as u128) * (self.decay_rate as u128);
            if spent >= BPS_DENOMINATOR as u128 {
                0
            } else {
                let share: u128 = BPS_DENOMINATOR as u128 - spent;
                assert((before as u128) * share <= (before as u128) * 10000) by (nonlinear_arith)
                    requires
                        share <= 10000,
                {
                }
                ((before as u128) * share / (BPS_DENOMINATOR as u128)) as u64
            }
        };
        self.current_volume = after;
        self.last_reset = now;
        Some((before, after, hours as u64))
    }

    /// Adds `amount` to the tracked volume unless that passes the daily limit.
    pub fn add(&mut self, amount: u64) -> (result: Result<(), ErrorCode>)
        ensures
            match result {
                Ok(()) => with_added_volume(*old(self), amount) == Ok::<VolumeSettings, ErrorCode>(
                    *final(self),
                ),
                Err(e) => with_added_volume(*old(self), amount) == Err::<VolumeSettings, ErrorCode>(
                    e,
                ) && *final(self) == *old(self),
            },
            result is Ok ==> valid_volume(*final(self)),
    {
        let total = match self.current_volume.checked_add(amount) {
            Some(t) => t,
            None => {
                return Err(ErrorCode::Overflow);
            },
        };
        if total > self.daily_limit {
            return Err(ErrorCode::DailyVolumeLimitExceeded);
        }
        self.current_volume = total;
        Ok(())
    }
}

/// The notification of the decay that is due at `now`, if any is.
pub open spec fn volume_decay_event(pool: PoolModel, now: i64) -> Option<VolumeDecayed> {
    if hours_passed(pool.volume, now) > 0 {
        Some(
            VolumeDecayed {
                pool: pool.pool_id,
                old_volume: pool.volume.current_volume,
                new_volume: decayed(pool.volume, now).current_volume,
                hours_passed: hours_passed(pool.volume, now) as u64,
                ts: now,
            },
        )
    } else {
        None
    }
}

impl PoolState {
    /// Decays the tracked volume by the whole hours passed at `current_time`.
    pub fn decay_volume(&mut self, current_time: i64) -> (result: Result<
        Option<VolumeDecayed>,
        ErrorCode,
    >)
        requires
            old(self).wf(),
        ensures
            final(self).wf(),
            match result {
                Ok(event) => {
                    &&& current_time > 0
                    &&& *final(self) == (PoolState {
                        volume: decayed(old(self).volume, current_time),
                        ..*old(self)
                    })
                    &&& event == volume_decay_event(old(self)@, current_time)
                },
                Err(e) => current_time <= 0 && e == ErrorCode::InvalidTimestamp && *final(self)
                    == *old(self),
            },
    {
        if current_time <= 0 {
            return Err(ErrorCode::InvalidTimestamp);
        }
        let mut volume = self.volume;
        let change = volume.decay(current_time);
        self.volume = volume;
        Ok(
            match change {
                Some((old_volume, new_volume, hours)) => Some(
                    VolumeDecayed {
                        pool: self.pool_id,
                        old_volume,
                        new_volume,
                        hours_passed: hours,
                        ts: current_time,
                    },
                ),
                None => None,
            },
        )
    }

    /// Adds the volume of a trade, refusing what would pass the daily limit.
    pub fn update_volume(&mut self, amount: u64, current_time: i64) -> (result: Result<
        (),
        ErrorCode,
    >)
        requires
            old(self).wf(),
        ensures
            final(self).wf(),
            match result {
                Ok(()) => {
                    &&& current_time > 0
                    &&& with_added_volume(old(self).volume, amount) == Ok::<
                        VolumeSettings,
                        ErrorCode,
                    >(final(self).volume)
                    &&& *final(self) == (PoolState { volume: final(self).volume, ..*old(self) })
                },
                Err(e) => *final(self) == *old(self) && if current_time <= 0 {
                    e == ErrorCode::InvalidTimestamp
                } else {
                    with_added_volume(old(self).volume, amount) == Err::<VolumeSettings, ErrorCode>(
                        e,
                    )
                },
            },
    {
        if current_time <= 0 {
            return Err(ErrorCode::InvalidTimestamp);
        }
        let mut volume = self.volume;
        volume.add(amount)?;
        self.volume = volume;
        Ok(())
    }

    /// Checks that the tracked volume is within the daily limit.
    pub fn check_volume_limit(&self, current_time: i64) -> (result: Result<(), ErrorCode>)
        ensures
            result == if current_time <= 0 {
                Err::<(), ErrorCode>(ErrorCode::InvalidTimestamp)
            } else if self.volume.current_volume > self.volume.daily_limit {
                Err::<(), ErrorCode>(ErrorCode::VolumeLimitExceeded)
            } else {
                Ok::<(), ErrorCode>(())
            },
    {
        if current_time <= 0 {
            return Err(ErrorCode::InvalidTimestamp);
        }
        if self.volume.current_volume > self.volume.daily_limit {
            return Err(ErrorCode::VolumeLimitExceeded);
        }
        Ok(())
    }
}

} // verus!
