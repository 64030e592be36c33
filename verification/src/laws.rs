//! Laws that hold across the operations of the pool.

use vstd::prelude::*;
use crate::address::Address;
use crate::circuit_breaker::lemma_breaker_refuses_during_cooldown;
use crate::constants::MINIMUM_FEE;
use crate::errors::ErrorCode;
use crate::events::TradeEvents;
use crate::guard::{guarded, meets};
use crate::trade::trade_outcome;
use crate::types::{PoolState, TradeOutcome};
use crate::validation::trade_refusal;
use crate::volume::decayed;

verus! {

/// Reentrancy: whatever the operation, a call on a locked pool fails with
/// `ReentrancyDetected` and leaves the pool, its lock included, as it was.
pub proof fn lemma_locked_pool_refuses<T>(
    outcome: Result<(PoolState, T), ErrorCode>,
    before: PoolState,
    after: PoolState,
    result: Result<T, ErrorCode>,
)
    requires
        before.is_locked,
        meets(guarded(before.is_locked, outcome), before, after, result),
    ensures
        result == Err::<T, ErrorCode>(ErrorCode::ReentrancyDetected),
        after == before,
{
}

/// Reentrancy: a guarded operation on an unlocked pool behaves as the
/// operation itself, and an operation that leaves the lock flag alone hands
/// the pool back unlocked, whether it succeeded or failed.
pub proof fn lemma_guard_released<T>(
    outcome: Result<(PoolState, T), ErrorCode>,
    before: PoolState,
    after: PoolState,
    result: Result<T, ErrorCode>,
)
    requires
        !before.is_locked,
        meets(guarded(before.is_locked, outcome), before, after, result),
        outcome matches Ok((next, _)) ==> !next.is_locked,
    ensures
        meets(outcome, before, after, result),
        !after.is_locked,
{
}

/// A banned trader is refused with `TraderBlacklisted` whatever the amount,
/// the minimum output and the time, as long as the blacklist is in force and
/// the pool is not locked.
pub proof fn lemma_banned_trader_refused(
    pool: PoolState,
    trader: Address,
    amount_in: u64,
    minimum_amount_out: u64,
    now: i64,
)
    requires
        !pool.is_locked,
        pool.protection.blacklist_enabled,
        pool@.trader_blacklist.contains(trader),
    ensures
        guarded(pool.is_locked, trade_outcome(pool, trader, amount_in, minimum_amount_out, now))
            == Err::<(PoolState, (TradeOutcome, TradeEvents)), ErrorCode>(
            ErrorCode::TraderBlacklisted,
        ),
{
}

/// While the breaker cools down, no trade that would leave the decayed
/// volume over the threshold is admitted.
pub proof fn lemma_no_trade_over_threshold_during_cooldown(
    pool: PoolState,
    trader: Address,
    amount_in: u64,
    minimum_amount_out: u64,
    now: i64,
)
    requires
        now < pool.circuit_breaker.last_trigger + pool.circuit_breaker.cooldown,
        decayed(pool.volume, now).current_volume + amount_in > pool.circuit_breaker.threshold,
    ensures
        trade_outcome(pool, trader, amount_in, minimum_amount_out, now) is Err,
{
    let d = PoolState { volume: decayed(pool.volume, now), ..pool };
    lemma_breaker_refuses_during_cooldown(
        d.circuit_breaker,
        d.volume.current_volume,
        amount_in,
        now,
    );
    assert(trade_refusal(d@, trader, amount_in, now) is Some);
}

/// A trade within the cooldown that follows an admitted trade is refused and,
/// being refused, changes nothing.
pub proof fn lemma_trade_within_cooldown_refused(
    pool: PoolState,
    trader: Address,
    amount_in: u64,
    minimum_amount_out: u64,
    now: i64,
    next_trader: Address,
    next_amount: u64,
    next_minimum: u64,
    later: i64,
)
    requires
        trade_outcome(pool, trader, amount_in, minimum_amount_out, now) is Ok,
        later - now < pool.trade.cooldown_seconds,
    ensures
        trade_outcome(
            trade_outcome(pool, trader, amount_in, minimum_amount_out, now)->Ok_0.0,
            next_trader,
            next_amount,
            next_minimum,
            later,
        ) is Err,
{
}

/// Every admitted trade is charged a fee of at least `MINIMUM_FEE` and less
/// than the amount paid in, pays out the rest, and books exactly the fee.
pub proof fn lemma_admitted_trade_accounts(
    pool: PoolState,
    trader: Address,
    amount_in: u64,
    minimum_amount_out: u64,
    now: i64,
)
    requires
        trade_outcome(pool, trader, amount_in, minimum_amount_out, now) is Ok,
    ensures
        ({
            let (next, (outcome, events)) = trade_outcome(
                pool,
                trader,
                amount_in,
                minimum_amount_out,
                now,
            )->Ok_0;
            &&& MINIMUM_FEE <= outcome.fee_amount < amount_in
            &&& outcome.amount_out + outcome.fee_amount == amount_in
            &&& outcome.amount_out >= minimum_amount_out
            &&& outcome.price_impact <= pool.protection.max_price_impact
            &&& next.total_fees_collected == pool.total_fees_collected + outcome.fee_amount
            &&& next.total_liquidity == pool.total_liquidity
            &&& next.volume.current_volume <= next.volume.daily_limit
            &&& next.rate_limit.count <= next.rate_limit.max_calls
            &&& next.trade.last_trade_time == now
        }),
{
}

} // verus!
