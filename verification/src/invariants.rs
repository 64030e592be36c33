//! What holds of every pool record between operations.

use vstd::prelude::*;
use crate::address::Address;
use crate::constants::{
    BPS_DENOMINATOR, MAXIMUM_FEE_BPS, MAX_BLACKLIST_SIZE, MAX_EARLY_TRADE_FEE_BPS, MAX_FEE_TIERS,
    MAX_TRADE_COOLDOWN, MINIMUM_FEE_BPS, MIN_FEE_TIER_SPACING_BPS,
};
use crate::fees::{lemma_first_tier_error, tier_error, tiers_ordered};
use crate::model::PoolModel;
use crate::types::{
    CircuitBreakerSettings, FeeTier, PoolState, RateLimitSettings, TradeSettings, VolumeSettings,
};

verus! {

/// The counter has not passed its limit.
pub open spec fn valid_rate_limit(rate_limit: RateLimitSettings) -> bool {
    rate_limit.count <= rate_limit.max_calls
}

/// Tracked volume has not passed the daily limit.
pub open spec fn valid_volume(volume: VolumeSettings) -> bool {
    volume.current_volume <= volume.daily_limit
}

/// The cooldown, the early fee and the size ceiling are within their bounds.
pub open spec fn valid_trade_settings(trade: TradeSettings) -> bool {
    &&& trade.cooldown_seconds <= MAX_TRADE_COOLDOWN
    &&& trade.early_trade_fee_bps <= MAX_EARLY_TRADE_FEE_BPS
    &&& trade.max_size_bps <= BPS_DENOMINATOR
}

/// The breaker's window is at least as long as its cooldown.
pub open spec fn valid_circuit_breaker(breaker: CircuitBreakerSettings) -> bool {
    breaker.window >= breaker.cooldown
}

/// A fallback rate, where set, is within the fee bounds.
pub open spec fn valid_default_fee(default_fee_bps: Option<u16>) -> bool {
    default_fee_bps matches Some(bps) ==> MINIMUM_FEE_BPS <= bps <= MAXIMUM_FEE_BPS
}

impl PoolModel {
    /// The invariants of the pool's settings, schedule and blacklist.
    pub open spec fn valid(self) -> bool {
        &&& valid_rate_limit(self.rate_limit)
        &&& valid_volume(self.volume)
        &&& valid_trade_settings(self.trade)
        &&& valid_circuit_breaker(self.circuit_breaker)
        &&& valid_default_fee(self.default_fee_bps)
        &&& tiers_ordered(self.fee_tiers)
        &&& self.trader_blacklist.finite()
        &&& self.trader_blacklist.len() <= MAX_BLACKLIST_SIZE
    }
}

impl PoolState {
    /// Well-formedness: the invariants hold and no address is listed twice.
    pub open spec fn wf(&self) -> bool {
        &&& self@.valid()
        &&& self.trader_blacklist@.no_duplicates()
    }

    /// Tells whether `trader` is on the blacklist.
    pub fn is_blacklisted(&self, trader: &Address) -> (listed: bool)
        ensures
            listed == self@.trader_blacklist.contains(*trader),
    {
        let mut i: usize = 0;
        while i < self.trader_blacklist.len()
            invariant
                i <= self.trader_blacklist@.len(),
                forall|j: int| 0 <= j < i ==> self.trader_blacklist@[j] != *trader,
            decreases self.trader_blacklist@.len() - i,
        {
            if self.trader_blacklist[i].same_as(trader) {
                return true;
            }
            i = i + 1;
        }
        false
    }

    /// Checks the invariants of a record that came from outside the library.
    pub fn is_well_formed(&self) -> (ok: bool)
        ensures
            ok == self.wf(),
    {
        if self.rate_limit.count > self.rate_limit.max_calls {
            return false;
        }
        if self.volume.current_volume > self.volume.daily_limit {
            return false;
        }
        if self.trade.cooldown_seconds > MAX_TRADE_COOLDOWN || self.trade.early_trade_fee_bps
            > MAX_EARLY_TRADE_FEE_BPS || self.trade.max_size_bps > BPS_DENOMINATOR {
            return false;
        }
        if self.circuit_breaker.window < self.circuit_breaker.cooldown {
            return false;
        }
        match self.default_fee_bps {
            Some(bps) => {
                if (bps as u64) < MINIMUM_FEE_BPS || (bps as u64) > MAXIMUM_FEE_BPS {
                    return false;
                }
            },
            None => {},
        }
        if !tiers_are_ordered(&self.fee_tiers) {
            return false;
        }
        if !has_no_duplicates(&self.trader_blacklist) {
            return false;
        }
        proof {
            self.trader_blacklist@.unique_seq_to_set();
        }
        self.trader_blacklist.len() <= MAX_BLACKLIST_SIZE
    }
}

/// Tells whether a schedule, possibly empty, is ordered.
pub fn tiers_are_ordered(tiers: &Vec<FeeTier>) -> (ok: bool)
    ensures
        ok == tiers_ordered(tiers@),
{
    if tiers.len() > MAX_FEE_TIERS {
        return false;
    }
    proof {
        lemma_first_tier_error(tiers@, 0);
    }
    let mut i: usize = 0;
    while i < tiers.len()
        invariant
            i <= tiers@.len(),
            tiers@.len() <= MAX_FEE_TIERS,
            forall|j: int| 0 <= j < i ==> tier_error(tiers@, j) is None,
        decreases tiers@.len() - i,
    {
        let tier = tiers[i];
        let mut bad = (tier.fee_bps as u64) < MINIMUM_FEE_BPS || (tier.fee_bps as u64)
            > MAXIMUM_FEE_BPS;
        if i > 0 {
            let previous = tiers[i - 1];
            bad = bad || tier.volume_threshold <= previous.volume_threshold
                || tier.volume_threshold - previous.volume_threshold
                < MIN_FEE_TIER_SPACING_BPS || tier.fee_bps > previous.fee_bps;
        }
        if bad {
            assert(tier_error(tiers@, i as int) is Some);
            return false;
        }
        i = i + 1;
    }
    true
}

/// Tells whether no address occurs twice in `list`.
pub fn has_no_duplicates(list: &Vec<Address>) -> (ok: bool)
    ensures
        ok == list@.no_duplicates(),
{
    let mut i: usize = 0;
    while i < list.len()
        invariant
            i <= list@.len(),
            forall|a: int, b: int| 0 <= a < b < list@.len() && a < i ==> list@[a] != list@[b],
        decreases list@.len() - i,
    {
        let mut j: usize = i + 1;
        while j < list.len()
            invariant
                i < list@.len(),
                i < j <= list@.len(),
                forall|b: int| i < b < j ==> list@[i as int] != list@[b],
            decreases list@.len() - j,
        {
            if list[i].same_as(&list[j]) {
                return false;
            }
            j = j + 1;
        }
        i = i + 1;
    }
    true
}

} // verus!
