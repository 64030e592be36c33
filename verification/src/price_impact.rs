//! Price impact guard: the size of a trade against the pool's balance.

use vstd::prelude::*;
use crate::constants::BPS_DENOMINATOR;
use crate::errors::ErrorCode;
use crate::types::PoolState;

verus! {

/// The impact of `amount_in` on `pool_balance` in basis points: zero for an
/// empty pool, and never rounded down to zero for a trade that moves anything.
pub open spec fn impact_bps(amount_in: u64, pool_balance: u64) -> int {
    if pool_balance == 0 {
        0
    } else if amount_in > 0 && amount_in * BPS_DENOMINATOR / (pool_balance as int) == 0 {
        1
    } else {
        amount_in * BPS_DENOMINATOR / (pool_balance as int)
    }
}

/// The impact of a trade, or why the guard refuses it.
pub open spec fn impact_outcome(max_impact: u64, amount_in: u64, pool_balance: u64) -> Result<
    u64,
    ErrorCode,
> {
    if pool_balance != 0 && amount_in * BPS_DENOMINATOR > u64::MAX {
        Err(ErrorCode::Overflow)
    } else if impact_bps(amount_in, pool_balance) > max_impact {
        Err(ErrorCode::PriceImpactTooHigh)
    } else {
        Ok(impact_bps(amount_in, pool_balance) as u64)
    }
}

/// A trade that moves anything in a pool that holds anything has an impact of at least one.
pub proof fn lemma_impact_never_silent(amount_in: u64, pool_balance: u64)
    requires
        amount_in > 0,
        pool_balance > 0,
    ensures
        impact_bps(amount_in, pool_balance) >= 1,
{
    assert(amount_in * BPS_DENOMINATOR / (pool_balance as int) >= 0) by (nonlinear_arith)
        requires
            amount_in > 0,
            pool_balance > 0,
            BPS_DENOMINATOR == 10000,
    ;
}

impl PoolState {
    /// Computes the price impact of `amount_in` on `pool_balance` and refuses
    /// what is over the configured ceiling.
    pub fn check_price_impact(&self, amount_in: u64, pool_balance: u64) -> (result: Result<
        u64,
        ErrorCode,
    >)
        ensures
            result == impact_outcome(self.protection.max_price_impact, amount_in, pool_balance),
            result matches Ok(impact) ==> impact <= self.protection.max_price_impact,
    {
        let impact: u64 = if pool_balance == 0 {
            0
        } else {
            let scaled = match amount_in.checked_mul(BPS_DENOMINATOR) {
                Some(s) => s,
                None => {
                    return Err(ErrorCode::Overflow);
                },
            };
            let raw = scaled / pool_balance;
            if amount_in > 0 && raw == 0 {
                1
            } else {
                raw
            }
        };
        if impact > self.protection.max_price_impact {
            return Err(ErrorCode::PriceImpactTooHigh);
        }
        Ok(impact)
    }
}

} // verus!
