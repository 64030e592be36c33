//! Fee schedule validation and the fee charged on a trade.
//!
//! A tier applies to a trade when its threshold is at or above the volume
//! tracked so far: the schedule reads "up to this much volume, this rate", and
//! the first such tier in ascending order is charged.

use vstd::prelude::*;
use crate::constants::{
    BPS_DENOMINATOR, FEE_MODE_EARLY_TRADE, FEE_MODE_NONE, FEE_MODE_VOLUME_BASED, MAXIMUM_FEE_BPS,
    MAX_FEE_TIERS, MINIMUM_FEE, MINIMUM_FEE_BPS, MIN_FEE_TIER_SPACING_BPS,
};
use crate::errors::ErrorCode;
use crate::model::PoolModel;
use crate::types::{FeeTier, PoolState};

verus! {

/// What is wrong with the tier at index `i`, judged with the tier before it.
pub open spec fn tier_error(tiers: Seq<FeeTier>, i: int) -> Option<ErrorCode> {
    let tier = tiers[i];
    if tier.fee_bps < MINIMUM_FEE_BPS {
        Some(ErrorCode::FeeTooLow)
    } else if tier.fee_bps > MAXIMUM_FEE_BPS {
        Some(ErrorCode::FeeTooHigh)
    } else if i > 0 && tier.volume_threshold == tiers[i - 1].volume_threshold {
        Some(ErrorCode::DuplicateFeeTierThreshold)
    } else if i > 0 && tier.volume_threshold < tiers[i - 1].volume_threshold
        + MIN_FEE_TIER_SPACING_BPS {
        Some(ErrorCode::InvalidFeeTierSpacing)
    } else if i > 0 && tier.fee_bps > tiers[i - 1].fee_bps {
        Some(ErrorCode::InvalidFeeTier)
    } else {
        None
    }
}

/// The error of the first faulty tier at or after index `from`.
pub open spec fn first_tier_error(tiers: Seq<FeeTier>, from: int) -> Option<ErrorCode>
    decreases tiers.len() - from,
{
    if from < 0 || from >= tiers.len() {
        None
    } else if tier_error(tiers, from) is Some {
        tier_error(tiers, from)
    } else {
        first_tier_error(tiers, from + 1)
    }
}

/// Every tier is within the fee bounds, thresholds rise by at least the
/// minimum spacing, fees do not rise, and the schedule is not too long.
pub open spec fn tiers_ordered(tiers: Seq<FeeTier>) -> bool {
    &&& tiers.len() <= MAX_FEE_TIERS
    &&& forall|i: int| 0 <= i < tiers.len() ==> tier_error(tiers, i) is None
}

/// A schedule that validation accepts: ordered and not empty.
pub open spec fn valid_fee_tiers(tiers: Seq<FeeTier>) -> bool {
    tiers.len() > 0 && tiers_ordered(tiers)
}

/// Why validation refuses a schedule, if it does.
pub open spec fn fee_tiers_error(tiers: Seq<FeeTier>) -> Option<ErrorCode> {
    if tiers.len() == 0 {
        Some(ErrorCode::InvalidFeeTier)
    } else if tiers.len() > MAX_FEE_TIERS {
        Some(ErrorCode::TooManyFeeTiers)
    } else {
        first_tier_error(tiers, 0)
    }
}

/// No tier from `from` on is faulty exactly when the search finds no error.
pub proof fn lemma_first_tier_error(tiers: Seq<FeeTier>, from: int)
    requires
        0 <= from,
    ensures
        first_tier_error(tiers, from) is None <==> forall|i: int|
            from <= i < tiers.len() ==> tier_error(tiers, i) is None,
    decreases tiers.len() - from,
{
    if from < tiers.len() {
        lemma_first_tier_error(tiers, from + 1);
        if tier_error(tiers, from) is None {
            assert forall|i: int| from <= i < tiers.len() && (forall|j: int|
                from + 1 <= j < tiers.len() ==> tier_error(tiers, j) is None) implies tier_error(
                tiers,
                i,
            ) is None by {
                if i > from {
                    assert(from + 1 <= i);
                }
            }
        }
    }
}

/// Validation accepts exactly the valid schedules.
pub proof fn lemma_fee_tiers_error_iff_invalid(tiers: Seq<FeeTier>)
    ensures
        fee_tiers_error(tiers) is None <==> valid_fee_tiers(tiers),
{
    lemma_first_tier_error(tiers, 0);
}

/// In an ordered schedule thresholds strictly increase and fees never increase
/// from any tier to any later one.
pub proof fn lemma_tiers_monotonic(tiers: Seq<FeeTier>, i: int, j: int)
    requires
        tiers_ordered(tiers),
        0 <= i < j < tiers.len(),
    ensures
        tiers[i].volume_threshold < tiers[j].volume_threshold,
        tiers[i].fee_bps >= tiers[j].fee_bps,
        MINIMUM_FEE_BPS <= tiers[j].fee_bps <= MAXIMUM_FEE_BPS,
    decreases j - i,
{
    assert(tier_error(tiers, j) is None);
    if i + 1 < j {
        lemma_tiers_monotonic(tiers, i, j - 1);
    }
}

/// A schedule in which some later tier has a threshold that is not higher, or
/// a fee that is higher, than an earlier one is refused.
pub proof fn lemma_unordered_tiers_rejected(tiers: Seq<FeeTier>, i: int, j: int)
    requires
        0 <= i < j < tiers.len(),
        tiers[i].volume_threshold >= tiers[j].volume_threshold || tiers[i].fee_bps
            < tiers[j].fee_bps,
    ensures
        fee_tiers_error(tiers) is Some,
{
    lemma_fee_tiers_error_iff_invalid(tiers);
    if tiers_ordered(tiers) {
        lemma_tiers_monotonic(tiers, i, j);
    }
}

/// Checks the tier at index `i` against the tier before it.
fn check_tier(tiers: &[FeeTier], i: usize) -> (result: Result<(), ErrorCode>)
    requires
        i < tiers@.len(),
    ensures
        result == match tier_error(tiers@, i as int) {
            Some(e) => Err::<(), ErrorCode>(e),
            None => Ok::<(), ErrorCode>(()),
        },
{
    let tier = tiers[i];
    if (tier.fee_bps as u64) < MINIMUM_FEE_BPS {
        return Err(ErrorCode::FeeTooLow);
    }
    if (tier.fee_bps as u64) > MAXIMUM_FEE_BPS {
        return Err(ErrorCode::FeeTooHigh);
    }
    if i > 0 {
        let previous = tiers[i - 1];
        if tier.volume_threshold == previous.volume_threshold {
            return Err(ErrorCode::DuplicateFeeTierThreshold);
        }
        if tier.volume_threshold < previous.volume_threshold || tier.volume_threshold
            - previous.volume_threshold < MIN_FEE_TIER_SPACING_BPS {
            return Err(ErrorCode::InvalidFeeTierSpacing);
        }
        if tier.fee_bps > previous.fee_bps {
            return Err(ErrorCode::InvalidFeeTier);
        }
    }
    Ok(())
}

/// Validates a fee schedule: not empty, at most `MAX_FEE_TIERS` tiers, and no
/// faulty tier. The error is that of the first faulty tier.
pub fn validate_fee_tiers(fee_tiers: &[FeeTier]) -> (result: Result<(), ErrorCode>)
    ensures
        result == match fee_tiers_error(fee_tiers@) {
            Some(e) => Err::<(), ErrorCode>(e),
            None => Ok::<(), ErrorCode>(()),
        },
        result is Ok <==> valid_fee_tiers(fee_tiers@),
{
    proof {
        lemma_fee_tiers_error_iff_invalid(fee_tiers@);
    }
    if fee_tiers.len() == 0 {
        return Err(ErrorCode::InvalidFeeTier);
    }
    if fee_tiers.len() > MAX_FEE_TIERS {
        return Err(ErrorCode::TooManyFeeTiers);
    }
    let mut i: usize = 0;
    while i < fee_tiers.len()
        invariant
            0 < fee_tiers@.len() <= MAX_FEE_TIERS,
            i <= fee_tiers@.len(),
            first_tier_error(fee_tiers@, 0) == first_tier_error(fee_tiers@, i as int),
        decreases fee_tiers@.len() - i,
    {
        match check_tier(fee_tiers, i) {
            Err(e) => {
                return Err(e);
            },
            Ok(()) => {},
        }
        i = i + 1;
    }
    Ok(())
}

/// Whether `tier` is charged at tracked volume `volume`.
pub open spec fn tier_applies(tier: FeeTier, volume: u64) -> bool {
    tier.volume_threshold >= volume
}

/// Index of the first tier at or after `from` that applies at `volume`.
pub open spec fn first_applicable_tier(tiers: Seq<FeeTier>, volume: u64, from: int) -> Option<int>
    decreases tiers.len() - from,
{
    if from < 0 || from >= tiers.len() {
        None
    } else if tier_applies(tiers[from], volume) {
        Some(from)
    } else {
        first_applicable_tier(tiers, volume, from + 1)
    }
}

/// The search returns the lowest applicable index, and none only where no tier applies.
pub proof fn lemma_first_applicable_tier(tiers: Seq<FeeTier>, volume: u64, from: int)
    requires
        0 <= from,
    ensures
        match first_applicable_tier(tiers, volume, from) {
            Some(k) => from <= k < tiers.len() && tier_applies(tiers[k], volume) && forall|j: int|
                from <= j < k ==> !tier_applies(tiers[j], volume),
            None => forall|j: int| from <= j < tiers.len() ==> !tier_applies(tiers[j], volume),
        },
    decreases tiers.len() - from,
{
    if from < tiers.len() && !tier_applies(tiers[from], volume) {
        lemma_first_applicable_tier(tiers, volume, from + 1);
    }
}

/// Whether a trade at `now` falls into the early-trade window.
pub open spec fn in_early_window(pool: PoolModel, now: i64) -> bool {
    now - pool.pool_start_time <= pool.trade.early_trade_window_seconds
}

/// The rate in basis points and the fee mode code of a trade at `now`.
pub open spec fn fee_rate(pool: PoolModel, now: i64) -> (u64, u8) {
    if in_early_window(pool, now) {
        (pool.trade.early_trade_fee_bps, FEE_MODE_EARLY_TRADE)
    } else {
        match first_applicable_tier(pool.fee_tiers, pool.volume.current_volume, 0) {
            Some(k) => (pool.fee_tiers[k].fee_bps as u64, FEE_MODE_VOLUME_BASED),
            None => match pool.default_fee_bps {
                Some(bps) => (bps as u64, FEE_MODE_NONE),
                None => (MINIMUM_FEE_BPS, FEE_MODE_NONE),
            },
        }
    }
}

/// The fee on `amount_in` at rate `bps`, floored at `MINIMUM_FEE`.
pub open spec fn floored_fee(amount_in: u64, bps: u64) -> int {
    let raw = amount_in * bps / (BPS_DENOMINATOR as int);
    if raw < MINIMUM_FEE {
        MINIMUM_FEE as int
    } else {
        raw
    }
}

/// The fee and fee mode of a trade, or why no fee can be charged.
pub open spec fn fee_outcome(pool: PoolModel, amount_in: u64, now: i64) -> Result<
    (u64, u8),
    ErrorCode,
> {
    let (bps, mode) = fee_rate(pool, now);
    if amount_in * bps > u64::MAX {
        Err(ErrorCode::Overflow)
    } else if floored_fee(amount_in, bps) >= amount_in {
        Err(ErrorCode::FeeTooHigh)
    } else {
        Ok((floored_fee(amount_in, bps) as u64, mode))
    }
}

/// Every fee that is charged is at least `MINIMUM_FEE` and below the amount
/// paid in.
pub proof fn lemma_fee_floor(pool: PoolModel, amount_in: u64, now: i64)
    ensures
        fee_outcome(pool, amount_in, now) matches Ok((fee, mode)) ==> MINIMUM_FEE <= fee
            < amount_in,
{
}

/// A fee is owed, and charged, on every amount of at least two units whose
/// product with a rate below one hundred percent fits the machine word.
pub proof fn lemma_fee_charged(pool: PoolModel, amount_in: u64, now: i64)
    requires
        amount_in >= 2,
        fee_rate(pool, now).0 < BPS_DENOMINATOR,
        amount_in * fee_rate(pool, now).0 <= u64::MAX,
    ensures
        fee_outcome(pool, amount_in, now) is Ok,
{
    let bps = fee_rate(pool, now).0;
    assert(amount_in * bps / (BPS_DENOMINATOR as int) < amount_in) by (nonlinear_arith)
        requires
            0 <= bps < BPS_DENOMINATOR,
            amount_in >= 2,
            BPS_DENOMINATOR == 10000,
    ;
}

/// Finds the rate of the first tier that applies at `volume`.
fn find_tier_rate(tiers: &Vec<FeeTier>, volume: u64) -> (found: Option<u16>)
    ensures
        found == match first_applicable_tier(tiers@, volume, 0) {
            Some(k) => Some(tiers@[k].fee_bps),
            None => None::<u16>,
        },
{
    let mut i: usize = 0;
    while i < tiers.len()
        invariant
            i <= tiers@.len(),
            first_applicable_tier(tiers@, volume, 0) == first_applicable_tier(
                tiers@,
                volume,
                i as int,
            ),
        decreases tiers@.len() - i,
    {
        if tiers[i].volume_threshold >= volume {
            return Some(tiers[i].fee_bps);
        }
        i = i + 1;
    }
    None
}

impl PoolState {
    /// Computes the fee owed on `amount_in` at `current_time` and the code of
    /// the mode that chose it.
    ///
    /// Inside the early-trade window the fixed early rate applies; after it
    /// the first applicable tier; where none applies, the fallback rate. The
    /// fee is floored at `MINIMUM_FEE`. It fails with `Overflow` where the
    /// product of amount and rate does not fit, and with `FeeTooHigh` where
    /// the fee would not leave a positive output.
    pub fn calculate_fee(pool_state: &PoolState, amount_in: u64, current_time: i64) -> (result:
        Result<(u64, u8), ErrorCode>)
        ensures
            result == fee_outcome(pool_state@, amount_in, current_time),
            result matches Ok((fee, mode)) ==> MINIMUM_FEE <= fee < amount_in,
    {
        let elapsed: i128 = current_time as i128 - pool_state.pool_start_time as i128;
        let (bps, mode): (u64, u8) = if elapsed <= pool_state.trade.early_trade_window_seconds as i128 {
            (pool_state.trade.early_trade_fee_bps, FEE_MODE_EARLY_TRADE)
        } else {
            match find_tier_rate(&pool_state.fee_tiers, pool_state.volume.current_volume) {
                Some(rate) => (rate as u64, FEE_MODE_VOLUME_BASED),
                None => match pool_state.default_fee_bps {
                    Some(rate) => (rate as u64, FEE_MODE_NONE),
                    None => (MINIMUM_FEE_BPS, FEE_MODE_NONE),
                },
            }
        };
        let product = match amount_in.checked_mul(bps) {
            Some(p) => p,
            None => {
                return Err(ErrorCode::Overflow);
            },
        };
        let raw = product / BPS_DENOMINATOR;
        let fee = if raw < MINIMUM_FEE {
            MINIMUM_FEE
        } else {
            raw
        };
        if fee >= amount_in {
            return Err(ErrorCode::FeeTooHigh);
        }
        Ok((fee, mode))
    }

    /// Validates a fee schedule for this pool.
    pub fn validate_fee_parameters(&self, fee_tiers: &[FeeTier]) -> (result: Result<(), ErrorCode>)
        ensures
            result == match fee_tiers_error(fee_tiers@) {
                Some(e) => Err::<(), ErrorCode>(e),
                None => Ok::<(), ErrorCode>(()),
            },
            result is Ok <==> valid_fee_tiers(fee_tiers@),
    {
        validate_fee_tiers(fee_tiers)
    }
}

} // verus!
