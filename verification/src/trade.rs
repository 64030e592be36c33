//! Executing a trade: every guard in turn, then the fee, then the books.
//!
//! A trade pays `amount_in` into the pool and receives `amount_in` less the
//! fee. The caller moves the tokens once the trade has been admitted; a trade
//! that is refused leaves the pool as it was.

use vstd::prelude::*;
use crate::address::Address;
use crate::circuit_breaker::{breaker_after, breaker_event};
use crate::constants::BPS_DENOMINATOR;
use crate::errors::ErrorCode;
use crate::events::{
    CircuitBreakerTriggered, RateLimitReset, TradeEvents, TradeExecuted, VolumeDecayed,
};
use crate::fees::fee_outcome;
use crate::guard::{guarded, meets, ReentrancyGuard};
use crate::price_impact::impact_outcome;
use crate::rate_limit::{admitted, rate_limit_reset_event};
use crate::types::{FeeMode, PoolState, TradeOutcome, TradeSettings};
use crate::validation::{trade_refusal, validate_trade_parameters};
use crate::volume::{decayed, volume_decay_event, with_added_volume};

verus! {

/// The largest trade that the settings admit: `max_size_bps` basis points of
/// the daily volume limit.
pub open spec fn max_trade_size(pool: PoolState) -> int {
    pool.volume.daily_limit * pool.trade.max_size_bps / (BPS_DENOMINATOR as int)
}

/// Why the size or the timing of a trade is refused, if it is: too small,
/// too large, or within the cooldown since the last trade.
pub open spec fn trade_limits_refusal(pool: PoolState, amount_in: u64, now: i64) -> Option<
    ErrorCode,
> {
    if amount_in < pool.trade.min_size {
        Some(ErrorCode::TradeTooSmall)
    } else if pool.volume.daily_limit * pool.trade.max_size_bps > u64::MAX {
        Some(ErrorCode::Overflow)
    } else if amount_in > max_trade_size(pool) {
        Some(ErrorCode::TradeTooLarge)
    } else if now - pool.trade.last_trade_time < pool.trade.cooldown_seconds {
        Some(ErrorCode::RateLimitExceeded)
    } else {
        None
    }
}

/// The fee, the fee mode code and the price impact of a trade, or why it
/// cannot be priced: the fee rules or the impact guard object, the output
/// falls short of `minimum_amount_out`, or the fee accumulator would not fit.
pub open spec fn pricing_outcome(pool: PoolState, amount_in: u64, minimum_amount_out: u64, now: i64)
    -> Result<(u64, u8, u64), ErrorCode> {
    match fee_outcome(pool@, amount_in, now) {
        Err(e) => Err(e),
        Ok((fee, mode)) => match impact_outcome(
            pool.protection.max_price_impact,
            amount_in,
            pool.total_liquidity,
        ) {
            Err(e) => Err(e),
            Ok(impact) => if amount_in - fee < minimum_amount_out {
                Err(ErrorCode::SlippageExceeded)
            } else if pool.total_fees_collected + fee > u64::MAX {
                Err(ErrorCode::Overflow)
            } else {
                Ok((fee, mode, impact))
            },
        },
    }
}

/// The fee mode that a fee mode code stands for in a trade's outcome.
pub open spec fn mode_of(code: u8) -> FeeMode {
    match FeeMode::spec_from_u8(code) {
        Some(mode) => mode,
        None => FeeMode::Fallback,
    }
}

/// A trade against a pool whose volume has been decayed to `now` already.
pub open spec fn admission_outcome(
    pool: PoolState,
    trader: Address,
    amount_in: u64,
    minimum_amount_out: u64,
    now: i64,
) -> Result<(PoolState, (TradeOutcome, TradeEvents)), ErrorCode> {
    if let Some(e) = trade_refusal(pool@, trader, amount_in, now) {
        Err(e)
    } else if let Some(e) = trade_limits_refusal(pool, amount_in, now) {
        Err(e)
    } else {
        match with_added_volume(pool.volume, amount_in) {
            Err(e) => Err(e),
            Ok(volume) => match pricing_outcome(pool, amount_in, minimum_amount_out, now) {
                Err(e) => Err(e),
                Ok((fee, mode, impact)) => Ok(
                    (
                        PoolState {
                            volume,
                            rate_limit: admitted(pool.rate_limit, now)->Ok_0,
                            circuit_breaker: breaker_after(
                                pool.circuit_breaker,
                                pool.volume.current_volume,
                                amount_in,
                                now,
                            ),
                            trade: TradeSettings { last_trade_time: now, ..pool.trade },
                            total_fees_collected: (pool.total_fees_collected + fee) as u64,
                            ..pool
                        },
                        (
                            TradeOutcome {
                                amount_out: (amount_in - fee) as u64,
                                fee_amount: fee,
                                fee_mode: mode_of(mode),
                                price_impact: impact,
                            },
                            TradeEvents {
                                executed: TradeExecuted {
                                    pool: pool.pool_id,
                                    buyer_pubkey: trader,
                                    amount_in,
                                    amount_out: (amount_in - fee) as u64,
                                    fee_amount: fee,
                                    fee_mode: mode,
                                    ts: now,
                                    token_mint: pool.token_mint,
                                },
                                rate_limit_reset: rate_limit_reset_event(pool@, now),
                                volume_decayed: None,
                                circuit_breaker: breaker_event(pool@, amount_in, now),
                            },
                        ),
                    ),
                ),
            },
        }
    }
}

/// A trade of `amount_in` by `trader` at `now`.
///
/// The tracked volume is decayed to `now` first. Against the decayed pool the
/// trade passes, in this order: the trader's ban, the pause flags, the amount
/// and the time, the volume limit, the rate limit, the circuit breaker, the
/// size limits, the cooldown since the last trade, the daily volume limit,
/// the fee, the price impact, the caller's minimum output, and the fee
/// accumulator. Then the call is counted, the breaker trips if the volume went
/// over its threshold, the volume and the fee are booked, and the time of the
/// trade is recorded.
pub open spec fn trade_outcome(
    pool: PoolState,
    trader: Address,
    amount_in: u64,
    minimum_amount_out: u64,
    now: i64,
) -> Result<(PoolState, (TradeOutcome, TradeEvents)), ErrorCode> {
    match admission_outcome(
        PoolState { volume: decayed(pool.volume, now), ..pool },
        trader,
        amount_in,
        minimum_amount_out,
        now,
    ) {
        Err(e) => Err(e),
        Ok((next, (outcome, events))) => Ok(
            (
                next,
                (outcome, TradeEvents { volume_decayed: volume_decay_event(pool@, now), ..events }),
            ),
        ),
    }
}

/// Checks the size of a trade and the cooldown since the last one.
pub fn check_trade_limits(pool_state: &PoolState, amount_in: u64, now: i64) -> (result: Result<
    (),
    ErrorCode,
>)
    ensures
        result == match trade_limits_refusal(*pool_state, amount_in, now) {
            Some(e) => Err::<(), ErrorCode>(e),
            None => Ok::<(), ErrorCode>(()),
        },
{
    if amount_in < pool_state.trade.min_size {
        return Err(ErrorCode::TradeTooSmall);
    }
    let scaled = match pool_state.volume.daily_limit.checked_mul(pool_state.trade.max_size_bps) {
        Some(s) => s,
        None => {
            return Err(ErrorCode::Overflow);
        },
    };
    if amount_in > scaled / BPS_DENOMINATOR {
        return Err(ErrorCode::TradeTooLarge);
    }
    let since: i128 = now as i128 - pool_state.trade.last_trade_time as i128;
    if since < pool_state.trade.cooldown_seconds as i128 {
        return Err(ErrorCode::RateLimitExceeded);
    }
    Ok(())
}

/// Prices a trade: its fee, its fee mode code and its price impact.
pub fn price_trade(
    pool_state: &PoolState,
    amount_in: u64,
    minimum_amount_out: u64,
    now: i64,
) -> (result: Result<(u64, u8, u64), ErrorCode>)
    ensures
        result == pricing_outcome(*pool_state, amount_in, minimum_amount_out, now),
        result matches Ok((fee, _, _)) ==> fee < amount_in && pool_state.total_fees_collected + fee
            <= u64::MAX,
{
    let (fee, mode) = PoolState::calculate_fee(pool_state, amount_in, now)?;
    let impact = pool_state.check_price_impact(amount_in, pool_state.total_liquidity)?;
    if amount_in - fee < minimum_amount_out {
        return Err(ErrorCode::SlippageExceeded);
    }
    if fee > u64::MAX - pool_state.total_fees_collected {
        return Err(ErrorCode::Overflow);
    }
    Ok((fee, mode, impact))
}

fn admit_trade(
    pool_state: &mut PoolState,
    trader: &Address,
    amount_in: u64,
    minimum_amount_out: u64,
    now: i64,
) -> (result: Result<(TradeOutcome, TradeEvents), ErrorCode>)
    requires
        old(pool_state).wf(),
    ensures
        final(pool_state).wf(),
        meets(
            admission_outcome(*old(pool_state), *trader, amount_in, minimum_amount_out, now),
            *old(pool_state),
            *final(pool_state),
            result,
        ),
{
    validate_trade_parameters(pool_state, trader, amount_in, now)?;
    check_trade_limits(pool_state, amount_in, now)?;
    let mut volume = pool_state.volume;
    volume.add(amount_in)?;
    let (fee, mode, impact) = price_trade(pool_state, amount_in, minimum_amount_out, now)?;
    let mut rate_limit = pool_state.rate_limit;
    let reset = rate_limit.check_and_increment(now)?;
    let tripped = pool_state.circuit_breaker.check(
        pool_state.volume.current_volume,
        amount_in,
        now,
    )?;
    let rate_limit_reset = match reset {
        Some(old_count) => Some(
            RateLimitReset {
                pool: pool_state.pool_id,
                old_count,
                new_count: 0,
                ts: now,
            },
        ),
        None => None,
    };
    let circuit_breaker = if tripped {
        Some(
            CircuitBreakerTriggered {
                pool: pool_state.pool_id,
                volume_24h: volume.current_volume,
                threshold: pool_state.circuit_breaker.threshold,
                ts: now,
            },
        )
    } else {
        None
    };
    if tripped {
        pool_state.circuit_breaker.last_trigger = now;
    }
    pool_state.volume = volume;
    pool_state.rate_limit = rate_limit;
    pool_state.trade.last_trade_time = now;
    pool_state.total_fees_collected = pool_state.total_fees_collected + fee;
    let amount_out = amount_in - fee;
    let fee_mode = match FeeMode::from_u8(mode) {
        Some(m) => m,
        None => FeeMode::Fallback,
    };
    Ok(
        (
            TradeOutcome { amount_out, fee_amount: fee, fee_mode, price_impact: impact },
            TradeEvents {
                executed: TradeExecuted {
                    pool: pool_state.pool_id,
                    buyer_pubkey: *trader,
                    amount_in,
                    amount_out,
                    fee_amount: fee,
                    fee_mode: mode,
                    ts: now,
                    token_mint: pool_state.token_mint,
                },
                rate_limit_reset,
                volume_decayed: None,
                circuit_breaker,
            },
        ),
    )
}

/// Executes a trade of `amount_in` by `trader`, who accepts no less than
/// `minimum_amount_out` in return.
pub fn execute_trade(
    pool_state: &mut PoolState,
    trader: &Address,
    amount_in: u64,
    minimum_amount_out: u64,
    current_time: i64,
) -> (result: Result<(TradeOutcome, TradeEvents), ErrorCode>)
    requires
        old(pool_state).wf(),
    ensures
        final(pool_state).wf(),
        final(pool_state).is_locked == old(pool_state).is_locked,
        meets(
            guarded(
                old(pool_state).is_locked,
                trade_outcome(*old(pool_state), *trader, amount_in, minimum_amount_out, current_time),
            ),
            *old(pool_state),
            *final(pool_state),
            result,
        ),
{
    let guard = ReentrancyGuard::new(pool_state)?;
    let volume_before = pool_state.volume;
    let mut volume = pool_state.volume;
    let change = volume.decay(current_time);
    pool_state.volume = volume;
    let admitted = admit_trade(pool_state, trader, amount_in, minimum_amount_out, current_time);
    let result = match admitted {
        Ok((outcome, events)) => {
            let volume_decayed = match change {
                Some((old_volume, new_volume, hours)) => Some(
                    VolumeDecayed {
                        pool: pool_state.pool_id,
                        old_volume,
                        new_volume,
                        hours_passed: hours,
                        ts: current_time,
                    },
                ),
                None => None,
            };
            Ok((outcome, TradeEvents { volume_decayed, ..events }))
        },
        Err(e) => {
            pool_state.volume = volume_before;
            Err(e)
        },
    };
    guard.release(pool_state);
    result
}

} // verus!
