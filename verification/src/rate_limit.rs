//! Fixed-window rate limiter of trades.
//!
//! The window is a hard cutoff: once it has run out, the next call starts a new
//! one at its own time. A burst at the end of one window may therefore be
//! followed at once by a burst at the start of the next.

use vstd::prelude::*;
use crate::errors::ErrorCode;
use crate::events::RateLimitReset;
use crate::invariants::valid_rate_limit;
use crate::model::PoolModel;
use crate::types::{PoolState, RateLimitSettings};

verus! {

/// Whether the window that started at `last_reset` has run out at `now`.
pub open spec fn window_elapsed(rate_limit: RateLimitSettings, now: i64) -> bool {
    now - rate_limit.last_reset >= rate_limit.window_seconds
}

/// The counter at `now`, before admission: started anew where the window has run out.
pub open spec fn rolled_over(rate_limit: RateLimitSettings, now: i64) -> RateLimitSettings {
    if window_elapsed(rate_limit, now) {
        RateLimitSettings { count: 0, last_reset: now, ..rate_limit }
    } else {
        rate_limit
    }
}

/// The counter after one more call at `now`, or the refusal of that call.
pub open spec fn admitted(rate_limit: RateLimitSettings, now: i64) -> Result<
    RateLimitSettings,
    ErrorCode,
> {
    let current = rolled_over(rate_limit, now);
    if current.count >= current.max_calls {
        Err(ErrorCode::RateLimitExceeded)
    } else {
        Ok(RateLimitSettings { count: (current.count + 1) as u32, ..current })
    }
}

/// The counter after calls at each of `times` in turn; a refused call leaves it as it was.
pub open spec fn after_calls(rate_limit: RateLimitSettings, times: Seq<i64>) -> RateLimitSettings
    decreases times.len(),
{
    if times.len() == 0 {
        rate_limit
    } else {
        let before = after_calls(rate_limit, times.drop_last());
        match admitted(before, times.last()) {
            Ok(next) => next,
            Err(_) => before,
        }
    }
}

/// Whatever calls are made and whenever, the count never exceeds `max_calls`,
/// and the limit and the window length stay as configured.
pub proof fn lemma_count_never_exceeds_limit(rate_limit: RateLimitSettings, times: Seq<i64>)
    requires
        valid_rate_limit(rate_limit),
    ensures
        after_calls(rate_limit, times).count <= rate_limit.max_calls,
        after_calls(rate_limit, times).max_calls == rate_limit.max_calls,
        after_calls(rate_limit, times).window_seconds == rate_limit.window_seconds,
    decreases times.len(),
{
    if times.len() > 0 {
        lemma_count_never_exceeds_limit(rate_limit, times.drop_last());
    }
}

/// A call made when the window has run out, such as one at exactly
/// `last_reset + window_seconds`, is judged against a count of zero: it is
/// admitted as the first call of a new window unless the limit itself is zero.
pub proof fn lemma_call_at_window_end_resets(rate_limit: RateLimitSettings, now: i64)
    requires
        now - rate_limit.last_reset >= rate_limit.window_seconds,
    ensures
        rolled_over(rate_limit, now).count == 0,
        rolled_over(rate_limit, now).last_reset == now,
        admitted(rate_limit, now) == if rate_limit.max_calls == 0 {
            Err::<RateLimitSettings, ErrorCode>(ErrorCode::RateLimitExceeded)
        } else {
            Ok::<RateLimitSettings, ErrorCode>(
                RateLimitSettings { count: 1, last_reset: now, ..rate_limit },
            )
        },
{
}

impl RateLimitSettings {
    /// Rolls the window over where it has run out, then counts one more call.
    /// Returns the count before the roll-over where there was one. A refused
    /// call leaves the counter as it was.
    pub fn check_and_increment(&mut self, now: i64) -> (result: Result<Option<u32>, ErrorCode>)
        ensures
            match result {
                Ok(reset) => admitted(*old(self), now) == Ok::<RateLimitSettings, ErrorCode>(
                    *final(self),
                ) && reset == if window_elapsed(*old(self), now) {
                    Some(old(self).count)
                } else {
                    None::<u32>
                },
                Err(e) => admitted(*old(self), now) == Err::<RateLimitSettings, ErrorCode>(e)
                    && *final(self) == *old(self),
            },
            result is Ok ==> valid_rate_limit(*final(self)),
    {
        let elapsed: i128 = now as i128 - self.last_reset as i128;
        let rolls = elapsed >= self.window_seconds as i128;
        let count: u32 = if rolls {
            0
        } else {
            self.count
        };
        if count >= self.max_calls {
            return Err(ErrorCode::RateLimitExceeded);
        }
        let next = match count.checked_add(1) {
            Some(n) => n,
            None => {
                return Err(ErrorCode::RateLimitOverflow);
            },
        };
        let reset = if rolls {
            Some(self.count)
        } else {
            None
        };
        if rolls {
            self.last_reset = now;
        }
        self.count = next;
        Ok(reset)
    }
}

/// Why the rate-limit check refuses a call at `now`, if it does.
pub open spec fn rate_limit_refusal(rate_limit: RateLimitSettings, now: i64) -> Option<ErrorCode> {
    if now <= 0 {
        Some(ErrorCode::InvalidTimestamp)
    } else if admitted(rate_limit, now) is Err {
        Some(ErrorCode::RateLimitExceeded)
    } else {
        None
    }
}

impl PoolState {
    /// Tells whether one more trade would be admitted at `current_time`,
    /// without counting it.
    pub fn check_rate_limit(&self, current_time: i64) -> (result: Result<(), ErrorCode>)
        ensures
            result == match rate_limit_refusal(self.rate_limit, current_time) {
                Some(e) => Err::<(), ErrorCode>(e),
                None => Ok::<(), ErrorCode>(()),
            },
    {
        if current_time <= 0 {
            return Err(ErrorCode::InvalidTimestamp);
        }
        let elapsed: i128 = current_time as i128 - self.rate_limit.last_reset as i128;
        if elapsed >= self.rate_limit.window_seconds as i128 {
            if self.rate_limit.max_calls == 0 {
                return Err(ErrorCode::RateLimitExceeded);
            }
            return Ok(());
        }
        if self.rate_limit.count >= self.rate_limit.max_calls {
            return Err(ErrorCode::RateLimitExceeded);
        }
        Ok(())
    }

    /// Counts one more trade at `current_time`, rolling the window over first
    /// where it has run out; the notification of a roll-over is handed back.
    pub fn update_rate_limit(&mut self, current_time: i64) -> (result: Result<
        Option<RateLimitReset>,
        ErrorCode,
    >)
        requires
            old(self).wf(),
        ensures
            final(self).wf(),
            match result {
                Ok(reset) => {
                    &&& rate_limit_refusal(old(self).rate_limit, current_time) is None
                    &&& admitted(old(self).rate_limit, current_time) == Ok::<
                        RateLimitSettings,
                        ErrorCode,
                    >(final(self).rate_limit)
                    &&& *final(self) == (PoolState {
                        rate_limit: final(self).rate_limit,
                        ..*old(self)
                    })
                    &&& reset == rate_limit_reset_event(old(self)@, current_time)
                },
                Err(e) => rate_limit_refusal(old(self).rate_limit, current_time) == Some(e)
                    && *final(self) == *old(self),
            },
    {
        if current_time <= 0 {
            return Err(ErrorCode::InvalidTimestamp);
        }
        let mut rate_limit = self.rate_limit;
        let reset = rate_limit.check_and_increment(current_time)?;
        self.rate_limit = rate_limit;
        Ok(
            match reset {
                Some(old_count) => Some(
                    RateLimitReset {
                        pool: self.pool_id,
                        old_count,
                        new_count: 0,
                        ts: current_time,
                    },
                ),
                None => None,
            },
        )
    }

    /// Starts a new rate-limit window at `current_time` with a count of zero.
    pub fn reset_rate_limit(&mut self, current_time: i64) -> (result: Result<
        RateLimitReset,
        ErrorCode,
    >)
        requires
            old(self).wf(),
        ensures
            final(self).wf(),
            *final(self) == (PoolState {
                rate_limit: RateLimitSettings {
                    count: 0,
                    last_reset: current_time,
                    ..old(self).rate_limit
                },
                ..*old(self)
            }),
            result == Ok::<RateLimitReset, ErrorCode>(
                RateLimitReset {
                    pool: old(self).pool_id,
                    old_count: old(self).rate_limit.count,
                    new_count: 0,
                    ts: current_time,
                },
            ),
    {
        let old_count = self.rate_limit.count;
        self.rate_limit.count = 0;
        self.rate_limit.last_reset = current_time;
        Ok(RateLimitReset { pool: self.pool_id, old_count, new_count: 0, ts: current_time })
    }
}

/// The notification of the roll-over that a call at `now` causes, if it causes one.
pub open spec fn rate_limit_reset_event(pool: PoolModel, now: i64) -> Option<RateLimitReset> {
    if window_elapsed(pool.rate_limit, now) {
        Some(
            RateLimitReset {
                pool: pool.pool_id,
                old_count: pool.rate_limit.count,
                new_count: 0,
                ts: now,
            },
        )
    } else {
        None
    }
}

} // verus!
