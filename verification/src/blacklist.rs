//! The admin's operations on the blacklist of traders.

use vstd::prelude::*;
use crate::address::Address;
use crate::errors::ErrorCode;
use crate::events::{BatchBlacklistCompleted, TraderBlacklisted, TraderRemovedFromBlacklist};
use crate::guard::{guarded, meets_model, ReentrancyGuard};
use crate::model::PoolModel;
use crate::types::{BlacklistOperation, PoolState};
use crate::utils::{blacklist_outcome, process_blacklist_operations};
use crate::validation::{admin_refusal, validate_admin_action};

verus! {

/// A batch of blacklist changes by `admin` at `now` with the notification
/// `output`: refused to anyone but the admin, else as the batch itself.
pub open spec fn blacklist_operation_outcome<T>(
    pool: PoolModel,
    admin: Address,
    traders: Seq<Address>,
    operation: BlacklistOperation,
    now: i64,
    output: T,
) -> Result<(PoolModel, T), ErrorCode> {
    if let Some(e) = admin_refusal(pool, admin, now) {
        Err(e)
    } else {
        match blacklist_outcome(pool, traders, operation) {
            Ok((next, _)) => Ok((next, output)),
            Err(e) => Err(e),
        }
    }
}

fn change_blacklist<T>(
    pool_state: &mut PoolState,
    admin: &Address,
    traders: Vec<Address>,
    operation: BlacklistOperation,
    now: i64,
    output: T,
) -> (result: Result<T, ErrorCode>)
    requires
        old(pool_state).wf(),
    ensures
        final(pool_state).wf(),
        final(pool_state).is_locked == old(pool_state).is_locked,
        meets_model(
            guarded(
                old(pool_state).is_locked,
                blacklist_operation_outcome(
                    old(pool_state)@,
                    *admin,
                    traders@,
                    operation,
                    now,
                    output,
                ),
            ),
            *old(pool_state),
            *final(pool_state),
            result,
        ),
{
    let guard = ReentrancyGuard::new(pool_state)?;
    let checked = match validate_admin_action(pool_state, admin, now) {
        Ok(()) => process_blacklist_operations(pool_state, traders, operation),
        Err(e) => Err(e),
    };
    guard.release(pool_state);
    match checked {
        Ok(()) => Ok(output),
        Err(e) => Err(e),
    }
}

/// Bans `trader` from trading.
pub fn blacklist_trader(
    pool_state: &mut PoolState,
    admin: &Address,
    trader: Address,
    current_time: i64,
) -> (result: Result<TraderBlacklisted, ErrorCode>)
    requires
        old(pool_state).wf(),
    ensures
        final(pool_state).wf(),
        final(pool_state).is_locked == old(pool_state).is_locked,
        meets_model(
            guarded(
                old(pool_state).is_locked,
                blacklist_operation_outcome(
                    old(pool_state)@,
                    *admin,
                    seq![trader],
                    BlacklistOperation::Add,
                    current_time,
                    TraderBlacklisted {
                        pool: old(pool_state).pool_id,
                        trader_pubkey: trader,
                        ts: current_time,
                    },
                ),
            ),
            *old(pool_state),
            *final(pool_state),
            result,
        ),
{
    let event = TraderBlacklisted { pool: pool_state.pool_id, trader_pubkey: trader, ts: current_time };
    let traders = vec![trader];
    assert(traders@ =~= seq![trader]);
    change_blacklist(pool_state, admin, traders, BlacklistOperation::Add, current_time, event)
}

/// Allows `trader` to trade again.
pub fn remove_from_blacklist(
    pool_state: &mut PoolState,
    admin: &Address,
    trader: Address,
    current_time: i64,
) -> (result: Result<TraderRemovedFromBlacklist, ErrorCode>)
    requires
        old(pool_state).wf(),
    ensures
        final(pool_state).wf(),
        final(pool_state).is_locked == old(pool_state).is_locked,
        meets_model(
            guarded(
                old(pool_state).is_locked,
                blacklist_operation_outcome(
                    old(pool_state)@,
                    *admin,
                    seq![trader],
                    BlacklistOperation::Remove,
                    current_time,
                    TraderRemovedFromBlacklist {
                        pool: old(pool_state).pool_id,
                        trader_pubkey: trader,
                        ts: current_time,
                    },
                ),
            ),
            *old(pool_state),
            *final(pool_state),
            result,
        ),
{
    let event = TraderRemovedFromBlacklist {
        pool: pool_state.pool_id,
        trader_pubkey: trader,
        ts: current_time,
    };
    let traders = vec![trader];
    assert(traders@ =~= seq![trader]);
    change_blacklist(pool_state, admin, traders, BlacklistOperation::Remove, current_time, event)
}

/// Bans every trader of `traders`, or none of them.
pub fn batch_blacklist_traders(
    pool_state: &mut PoolState,
    admin: &Address,
    traders: Vec<Address>,
    current_time: i64,
) -> (result: Result<BatchBlacklistCompleted, ErrorCode>)
    requires
        old(pool_state).wf(),
    ensures
        final(pool_state).wf(),
        final(pool_state).is_locked == old(pool_state).is_locked,
        meets_model(
            guarded(
                old(pool_state).is_locked,
                blacklist_operation_outcome(
                    old(pool_state)@,
                    *admin,
                    traders@,
                    BlacklistOperation::Add,
                    current_time,
                    BatchBlacklistCompleted {
                        pool: old(pool_state).pool_id,
                        admin_pubkey: *admin,
                        count: traders@.len() as u64,
                        ts: current_time,
                    },
                ),
            ),
            *old(pool_state),
            *final(pool_state),
            result,
        ),
{
    let event = BatchBlacklistCompleted {
        pool: pool_state.pool_id,
        admin_pubkey: *admin,
        count: traders.len() as u64,
        ts: current_time,
    };
    change_blacklist(pool_state, admin, traders, BlacklistOperation::Add, current_time, event)
}

/// Unbans every trader of `traders`, or none of them.
pub fn batch_unblacklist_traders(
    pool_state: &mut PoolState,
    admin: &Address,
    traders: Vec<Address>,
    current_time: i64,
) -> (result: Result<BatchBlacklistCompleted, ErrorCode>)
    requires
        old(pool_state).wf(),
    ensures
        final(pool_state).wf(),
        final(pool_state).is_locked == old(pool_state).is_locked,
        meets_model(
            guarded(
                old(pool_state).is_locked,
                blacklist_operation_outcome(
                    old(pool_state)@,
                    *admin,
                    traders@,
                    BlacklistOperation::Remove,
                    current_time,
                    BatchBlacklistCompleted {
                        pool: old(pool_state).pool_id,
                        admin_pubkey: *admin,
                        count: traders@.len() as u64,
                        ts: current_time,
                    },
                ),
            ),
            *old(pool_state),
            *final(pool_state),
            result,
        ),
{
    let event = BatchBlacklistCompleted {
        pool: pool_state.pool_id,
        admin_pubkey: *admin,
        count: traders.len() as u64,
        ts: current_time,
    };
    change_blacklist(pool_state, admin, traders, BlacklistOperation::Remove, current_time, event)
}

} // verus!
