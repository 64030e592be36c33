//! The reentrancy guard: a lock flag on the pool record, taken for the length
//! of one operation and given back on every way out of it.

use vstd::prelude::*;
use crate::errors::ErrorCode;
use crate::model::PoolModel;
use crate::types::PoolState;

verus! {

/// What an operation owes: on success the state and the output that its
/// outcome names, on refusal the error that it names and an untouched state.
pub open spec fn meets<T>(
    outcome: Result<(PoolState, T), ErrorCode>,
    before: PoolState,
    after: PoolState,
    result: Result<T, ErrorCode>,
) -> bool {
    match outcome {
        Ok((next, output)) => after == next && result == Ok::<T, ErrorCode>(output),
        Err(e) => after == before && result == Err::<T, ErrorCode>(e),
    }
}

/// The same for an operation that rewrites a vector of the record: on
/// success it is the view of the state that is named.
pub open spec fn meets_model<T>(
    outcome: Result<(PoolModel, T), ErrorCode>,
    before: PoolState,
    after: PoolState,
    result: Result<T, ErrorCode>,
) -> bool {
    match outcome {
        Ok((next, output)) => after@ =~= next && result == Ok::<T, ErrorCode>(output),
        Err(e) => after == before && result == Err::<T, ErrorCode>(e),
    }
}

/// The outcome of a guarded operation: `ReentrancyDetected` on a locked pool,
/// else the outcome of the operation itself.
pub open spec fn guarded<S, T>(locked: bool, outcome: Result<(S, T), ErrorCode>) -> Result<
    (S, T),
    ErrorCode,
> {
    if locked {
        Err(ErrorCode::ReentrancyDetected)
    } else {
        outcome
    }
}

/// Proof that the pool's lock was taken. It is spent by `release`.
#[derive(Debug)]
pub struct ReentrancyGuard {
    _taken: (),
}

impl ReentrancyGuard {
    /// Takes the lock of `pool_state`. A pool that is already locked is in
    /// the middle of another operation: the call fails with
    /// `ReentrancyDetected` and changes nothing.
    pub fn new(pool_state: &mut PoolState) -> (result: Result<ReentrancyGuard, ErrorCode>)
        ensures
            match result {
                Ok(_) => !old(pool_state).is_locked && *final(pool_state) == (PoolState {
                    is_locked: true,
                    ..*old(pool_state)
                }),
                Err(e) => old(pool_state).is_locked && e == ErrorCode::ReentrancyDetected
                    && *final(pool_state) == *old(pool_state),
            },
    {
        if pool_state.is_locked {
            return Err(ErrorCode::ReentrancyDetected);
        }
        pool_state.is_locked = true;
        Ok(ReentrancyGuard { _taken: () })
    }

    /// Gives the lock of `pool_state` back.
    pub fn release(self, pool_state: &mut PoolState)
        ensures
            *final(pool_state) == (PoolState { is_locked: false, ..*old(pool_state) }),
    {
        pool_state.is_locked = false;
    }
}

} // verus!
