//! Changes to the blacklist, and the seeds that sign for the pool's funds.

use vstd::prelude::*;
use crate::address::{lemma_address_view_injective, Address};
use crate::authority::{derive_pool_authority, program_address};
use crate::constants::{BATCH_BLACKLIST_MAX_SIZE, MAX_BLACKLIST_SIZE, POOL_ID_SEED};
use crate::errors::ErrorCode;
use crate::guard::meets_model;
use crate::model::PoolModel;
use crate::types::{BlacklistOperation, PoolState, SignerSeeds};

verus! {

/// What is wrong with the trader at index `i` of a batch, judged with the
/// traders before it: an admin cannot be banned, nobody is banned twice, and
/// only a banned trader can be unbanned, once.
pub open spec fn blacklist_error_at(
    list: Set<Address>,
    admins: (Address, Address),
    traders: Seq<Address>,
    operation: BlacklistOperation,
    i: int,
) -> Option<ErrorCode> {
    let trader = traders[i];
    match operation {
        BlacklistOperation::Add => if trader == admins.0 || trader == admins.1 {
            Some(ErrorCode::InvalidTrader)
        } else if list.contains(trader) || traders.take(i).contains(trader) {
            Some(ErrorCode::TraderAlreadyBlacklisted)
        } else {
            None
        },
        BlacklistOperation::Remove => if !list.contains(trader) || traders.take(i).contains(
            trader,
        ) {
            Some(ErrorCode::TraderNotBlacklisted)
        } else {
            None
        },
    }
}

/// The error of the first faulty trader at or after index `from`.
pub open spec fn first_blacklist_error(
    list: Set<Address>,
    admins: (Address, Address),
    traders: Seq<Address>,
    operation: BlacklistOperation,
    from: int,
) -> Option<ErrorCode>
    decreases traders.len() - from,
{
    if from < 0 || from >= traders.len() {
        None
    } else if blacklist_error_at(list, admins, traders, operation, from) is Some {
        blacklist_error_at(list, admins, traders, operation, from)
    } else {
        first_blacklist_error(list, admins, traders, operation, from + 1)
    }
}

/// The admin and the emergency admin of a pool.
pub open spec fn admins_of(pool: PoolModel) -> (Address, Address) {
    (pool.admin, pool.emergency_admin)
}

/// The blacklist after a batch: with the traders added, or without them.
pub open spec fn blacklist_after(
    list: Set<Address>,
    traders: Seq<Address>,
    operation: BlacklistOperation,
) -> Set<Address> {
    match operation {
        BlacklistOperation::Add => list.union(traders.to_set()),
        BlacklistOperation::Remove => list.difference(traders.to_set()),
    }
}

/// A batch of blacklist changes: all of it is done, or none. It is refused
/// while the blacklist is switched off, where the batch is longer than
/// `BATCH_BLACKLIST_MAX_SIZE`, where the list would grow over
/// `MAX_BLACKLIST_SIZE`, and with the error of its first faulty trader.
pub open spec fn blacklist_outcome(
    pool: PoolModel,
    traders: Seq<Address>,
    operation: BlacklistOperation,
) -> Result<(PoolModel, ()), ErrorCode> {
    if !pool.protection.blacklist_enabled {
        Err(ErrorCode::Unauthorized)
    } else if traders.len() > BATCH_BLACKLIST_MAX_SIZE {
        Err(ErrorCode::TooManyFeeTiers)
    } else if operation == BlacklistOperation::Add && pool.trader_blacklist.len() + traders.len()
        > MAX_BLACKLIST_SIZE {
        Err(ErrorCode::BlacklistFull)
    } else if let Some(e) = first_blacklist_error(
        pool.trader_blacklist,
        admins_of(pool),
        traders,
        operation,
        0,
    ) {
        Err(e)
    } else {
        Ok(
            (
                PoolModel {
                    trader_blacklist: blacklist_after(pool.trader_blacklist, traders, operation),
                    ..pool
                },
                (),
            ),
        )
    }
}

/// The search finds no error exactly when no trader from `from` on is faulty.
pub proof fn lemma_first_blacklist_error(
    list: Set<Address>,
    admins: (Address, Address),
    traders: Seq<Address>,
    operation: BlacklistOperation,
    from: int,
)
    requires
        0 <= from,
    ensures
        first_blacklist_error(list, admins, traders, operation, from) is None <==> forall|i: int|
            from <= i < traders.len() ==> blacklist_error_at(list, admins, traders, operation, i)
                is None,
    decreases traders.len() - from,
{
    if from < traders.len() {
        lemma_first_blacklist_error(list, admins, traders, operation, from + 1);
        if blacklist_error_at(list, admins, traders, operation, from) is None {
            assert forall|i: int| from <= i < traders.len() && (forall|j: int|
                from + 1 <= j < traders.len() ==> blacklist_error_at(
                    list,
                    admins,
                    traders,
                    operation,
                    j,
                ) is None) implies blacklist_error_at(list, admins, traders, operation, i)
                is None by {
                if i > from {
                    assert(from + 1 <= i);
                }
            }
        }
    }
}

/// Banning a single trader: refused while the blacklist is switched off,
/// where the list is full, for an admin, and for a trader who is banned
/// already; else the trader joins the list.
pub proof fn lemma_ban_one(pool: PoolModel, trader: Address)
    ensures
        blacklist_outcome(pool, seq![trader], BlacklistOperation::Add) matches Ok((next, _))
            ==> next.trader_blacklist == pool.trader_blacklist.insert(trader),
        blacklist_outcome(pool, seq![trader], BlacklistOperation::Add) == (
            if !pool.protection.blacklist_enabled {
                Err::<(PoolModel, ()), ErrorCode>(ErrorCode::Unauthorized)
            } else if pool.trader_blacklist.len() + 1 > MAX_BLACKLIST_SIZE {
                Err::<(PoolModel, ()), ErrorCode>(ErrorCode::BlacklistFull)
            } else if trader == pool.admin || trader == pool.emergency_admin {
                Err::<(PoolModel, ()), ErrorCode>(ErrorCode::InvalidTrader)
            } else if pool.trader_blacklist.contains(trader) {
                Err::<(PoolModel, ()), ErrorCode>(ErrorCode::TraderAlreadyBlacklisted)
            } else {
                Ok::<(PoolModel, ()), ErrorCode>(
                    (
                        PoolModel {
                            trader_blacklist: pool.trader_blacklist.union(seq![trader].to_set()),
                            ..pool
                        },
                        (),
                    ),
                )
            }),
{
    reveal_with_fuel(first_blacklist_error, 3);
    assert(seq![trader].take(0) =~= Seq::<Address>::empty());
    assert(seq![trader].to_set() =~= set![trader]);
    assert(pool.trader_blacklist.union(set![trader]) =~= pool.trader_blacklist.insert(trader));
}

/// Unbanning a single trader: refused while the blacklist is switched off
/// and for a trader who is not banned; else the trader leaves the list.
pub proof fn lemma_unban_one(pool: PoolModel, trader: Address)
    ensures
        blacklist_outcome(pool, seq![trader], BlacklistOperation::Remove) matches Ok((next, _))
            ==> next.trader_blacklist == pool.trader_blacklist.remove(trader),
        blacklist_outcome(pool, seq![trader], BlacklistOperation::Remove) == (
            if !pool.protection.blacklist_enabled {
                Err::<(PoolModel, ()), ErrorCode>(ErrorCode::Unauthorized)
            } else if !pool.trader_blacklist.contains(trader) {
                Err::<(PoolModel, ()), ErrorCode>(ErrorCode::TraderNotBlacklisted)
            } else {
                Ok::<(PoolModel, ()), ErrorCode>(
                    (
                        PoolModel {
                            trader_blacklist: pool.trader_blacklist.difference(seq![trader].to_set()),
                            ..pool
                        },
                        (),
                    ),
                )
            }),
{
    reveal_with_fuel(first_blacklist_error, 3);
    assert(seq![trader].take(0) =~= Seq::<Address>::empty());
    assert(seq![trader].to_set() =~= set![trader]);
    assert(pool.trader_blacklist.difference(set![trader]) =~= pool.trader_blacklist.remove(trader));
}

/// Taking one element out of a sequence without duplicates takes that element,
/// and no other, out of its set.
pub proof fn lemma_remove_from_unique(list: Seq<Address>, i: int)
    requires
        list.no_duplicates(),
        0 <= i < list.len(),
    ensures
        list.remove(i).no_duplicates(),
        list.remove(i).to_set() =~= list.to_set().remove(list[i]),
{
    let shorter = list.remove(i);
    assert forall|a: int, b: int| 0 <= a < b < shorter.len() implies shorter[a] != shorter[b] by {
        let a0 = if a < i {
            a
        } else {
            a + 1
        };
        let b0 = if b < i {
            b
        } else {
            b + 1
        };
        assert(shorter[a] == list[a0] && shorter[b] == list[b0]);
    }
    assert forall|x: Address| shorter.to_set().contains(x) <==> list.to_set().remove(
        list[i],
    ).contains(x) by {
        if shorter.to_set().contains(x) {
            let k = choose|k: int| 0 <= k < shorter.len() && shorter[k] == x;
            let k0 = if k < i {
                k
            } else {
                k + 1
            };
            assert(list[k0] == x);
        }
        if list.to_set().remove(list[i]).contains(x) {
            let k = choose|k: int| 0 <= k < list.len() && list[k] == x;
            assert(k != i);
            let k1 = if k < i {
                k
            } else {
                k - 1
            };
            assert(shorter[k1] == x);
        }
    }
}

/// Finds where `trader` stands in `list`.
fn position_of(list: &Vec<Address>, trader: &Address) -> (found: Option<usize>)
    ensures
        match found {
            Some(i) => i < list@.len() && list@[i as int] == *trader,
            None => !list@.contains(*trader),
        },
{
    let mut i: usize = 0;
    while i < list.len()
        invariant
            i <= list@.len(),
            forall|j: int| 0 <= j < i ==> list@[j] != *trader,
        decreases list@.len() - i,
    {
        if list[i].same_as(trader) {
            return Some(i);
        }
        i = i + 1;
    }
    None
}

/// Tells whether the trader at index `i` occurs before `i` as well.
fn occurs_before(traders: &Vec<Address>, i: usize) -> (found: bool)
    requires
        i < traders@.len(),
    ensures
        found == traders@.take(i as int).contains(traders@[i as int]),
{
    let mut j: usize = 0;
    while j < i
        invariant
            j <= i < traders@.len(),
            forall|k: int| 0 <= k < j ==> traders@[k] != traders@[i as int],
        decreases i - j,
    {
        if traders[j].same_as(&traders[i]) {
            assert(traders@.take(i as int)[j as int] == traders@[i as int]);
            return true;
        }
        j = j + 1;
    }
    assert forall|k: int| 0 <= k < traders@.take(i as int).len() implies traders@.take(i as int)[k]
        != traders@[i as int] by {
        assert(traders@.take(i as int)[k] == traders@[k]);
    }
    false
}

/// Judges the trader at index `i` of a batch.
fn check_trader(
    pool_state: &PoolState,
    traders: &Vec<Address>,
    operation: BlacklistOperation,
    i: usize,
) -> (result: Result<(), ErrorCode>)
    requires
        i < traders@.len(),
    ensures
        result == match blacklist_error_at(
            pool_state@.trader_blacklist,
            admins_of(pool_state@),
            traders@,
            operation,
            i as int,
        ) {
            Some(e) => Err::<(), ErrorCode>(e),
            None => Ok::<(), ErrorCode>(()),
        },
{
    let listed = pool_state.is_blacklisted(&traders[i]);
    let repeated = occurs_before(traders, i);
    match operation {
        BlacklistOperation::Add => {
            if traders[i].same_as(&pool_state.admin) || traders[i].same_as(
                &pool_state.emergency_admin,
            ) {
                return Err(ErrorCode::InvalidTrader);
            }
            if listed || repeated {
                return Err(ErrorCode::TraderAlreadyBlacklisted);
            }
        },
        BlacklistOperation::Remove => {
            if !listed || repeated {
                return Err(ErrorCode::TraderNotBlacklisted);
            }
        },
    }
    Ok(())
}

/// Puts every trader of a faultless batch on the list.
fn add_all(list: &mut Vec<Address>, traders: &Vec<Address>)
    requires
        old(list)@.no_duplicates(),
        traders@.no_duplicates(),
        forall|k: int| 0 <= k < traders@.len() ==> !old(list)@.contains(traders@[k]),
    ensures
        final(list)@.no_duplicates(),
        final(list)@.len() == old(list)@.len() + traders@.len(),
        final(list)@.to_set() =~= old(list)@.to_set().union(traders@.to_set()),
{
    let ghost before = list@;
    let mut i: usize = 0;
    assert(traders@.take(0).to_set() =~= Set::<Address>::empty());
    while i < traders.len()
        invariant
            i <= traders@.len(),
            before.no_duplicates(),
            traders@.no_duplicates(),
            forall|k: int| 0 <= k < traders@.len() ==> !before.contains(traders@[k]),
            list@.no_duplicates(),
            list@ == before + traders@.take(i as int),
            list@.to_set() =~= before.to_set().union(traders@.take(i as int).to_set()),
        decreases traders@.len() - i,
    {
        let trader = traders[i];
        proof {
            let taken = traders@.take(i as int);
            assert forall|k: int| 0 <= k < list@.len() implies list@[k] != trader by {
                if k < before.len() {
                    assert(list@[k] == before[k]);
                } else {
                    assert(list@[k] == traders@[k - before.len()]);
                }
            }
            assert(traders@.take(i + 1) =~= taken.push(trader));
            taken.lemma_push_to_set_commute(trader);
            list@.lemma_push_to_set_commute(trader);
        }
        list.push(trader);
        assert(list@ =~= before + traders@.take(i + 1));
        i = i + 1;
    }
    assert(traders@.take(traders@.len() as int) =~= traders@);
}

/// Takes every trader of a faultless batch off the list.
fn remove_all(list: &mut Vec<Address>, traders: &Vec<Address>)
    requires
        old(list)@.no_duplicates(),
        traders@.no_duplicates(),
        forall|k: int| 0 <= k < traders@.len() ==> old(list)@.contains(traders@[k]),
    ensures
        final(list)@.no_duplicates(),
        final(list)@.len() <= old(list)@.len(),
        final(list)@.to_set() =~= old(list)@.to_set().difference(traders@.to_set()),
{
    let ghost before = list@;
    let mut i: usize = 0;
    assert(traders@.take(0).to_set() =~= Set::<Address>::empty());
    while i < traders.len()
        invariant
            i <= traders@.len(),
            traders@.no_duplicates(),
            forall|k: int| 0 <= k < traders@.len() ==> before.contains(traders@[k]),
            list@.no_duplicates(),
            list@.len() <= before.len(),
            list@.to_set() =~= before.to_set().difference(traders@.take(i as int).to_set()),
        decreases traders@.len() - i,
    {
        let trader = traders[i];
        proof {
            let taken = traders@.take(i as int);
            assert(traders@.take(i + 1) =~= taken.push(trader));
            taken.lemma_push_to_set_commute(trader);
            assert(!taken.contains(trader)) by {
                if taken.contains(trader) {
                    let k = choose|k: int| 0 <= k < taken.len() && taken[k] == trader;
                    assert(traders@[k] == traders@[i as int]);
                }
            }
            assert(before.to_set().contains(trader));
            assert(list@.to_set().contains(trader));
        }
        match position_of(list, &trader) {
            Some(at) => {
                proof {
                    lemma_remove_from_unique(list@, at as int);
                }
                list.remove(at);
            },
            None => {
                assert(false);
            },
        }
        i = i + 1;
    }
    assert(traders@.take(traders@.len() as int) =~= traders@);
}

/// Bans or unbans a batch of traders: all of them, or none where any of them
/// is faulty.
pub fn process_blacklist_operations(
    pool_state: &mut PoolState,
    traders: Vec<Address>,
    operation: BlacklistOperation,
) -> (result: Result<(), ErrorCode>)
    requires
        old(pool_state).wf(),
    ensures
        final(pool_state).wf(),
        meets_model(
            blacklist_outcome(old(pool_state)@, traders@, operation),
            *old(pool_state),
            *final(pool_state),
            result,
        ),
{
    if !pool_state.protection.blacklist_enabled {
        return Err(ErrorCode::Unauthorized);
    }
    if traders.len() > BATCH_BLACKLIST_MAX_SIZE {
        return Err(ErrorCode::TooManyFeeTiers);
    }
    proof {
        pool_state.trader_blacklist@.unique_seq_to_set();
    }
    match operation {
        BlacklistOperation::Add => {
            if pool_state.trader_blacklist.len() + traders.len() > MAX_BLACKLIST_SIZE {
                return Err(ErrorCode::BlacklistFull);
            }
        },
        BlacklistOperation::Remove => {},
    }
    let mut i: usize = 0;
    while i < traders.len()
        invariant
            i <= traders@.len(),
            pool_state.wf(),
            *pool_state == *old(pool_state),
            first_blacklist_error(
                pool_state@.trader_blacklist,
                admins_of(pool_state@),
                traders@,
                operation,
                0,
            ) == first_blacklist_error(
                pool_state@.trader_blacklist,
                admins_of(pool_state@),
                traders@,
                operation,
                i as int,
            ),
            blacklist_outcome(pool_state@, traders@, operation) == match first_blacklist_error(
                pool_state@.trader_blacklist,
                admins_of(pool_state@),
                traders@,
                operation,
                0,
            ) {
                Some(e) => Err::<(PoolModel, ()), ErrorCode>(e),
                None => Ok::<(PoolModel, ()), ErrorCode>(
                    (
                        PoolModel {
                            trader_blacklist: blacklist_after(
                                pool_state@.trader_blacklist,
                                traders@,
                                operation,
                            ),
                            ..pool_state@
                        },
                        (),
                    ),
                ),
            },
        decreases traders@.len() - i,
    {
        check_trader(pool_state, &traders, operation, i)?;
        i = i + 1;
    }
    proof {
        let list = pool_state@.trader_blacklist;
        let admins = admins_of(pool_state@);
        lemma_first_blacklist_error(list, admins, traders@, operation, 0);
        assert forall|a: int, b: int| 0 <= a < b < traders@.len() implies traders@[a]
            != traders@[b] by {
            assert(blacklist_error_at(list, admins, traders@, operation, b) is None);
            assert(traders@.take(b)[a] == traders@[a]);
        }
        assert forall|k: int| 0 <= k < traders@.len() implies (pool_state.trader_blacklist@.contains(
            traders@[k],
        ) <==> operation == BlacklistOperation::Remove) by {
            assert(blacklist_error_at(list, admins, traders@, operation, k) is None);
        }
    }
    match operation {
        BlacklistOperation::Add => {
            add_all(&mut pool_state.trader_blacklist, &traders);
        },
        BlacklistOperation::Remove => {
            remove_all(&mut pool_state.trader_blacklist, &traders);
        },
    }
    proof {
        pool_state.trader_blacklist@.unique_seq_to_set();
    }
    Ok(())
}

/// Whether a derived authority is the one that a caller claims and carries
/// the bump seed that the pool recorded.
pub open spec fn authority_confirmed(
    pool: PoolState,
    derived: (Address, u8),
    claimed: Address,
) -> bool {
    derived.0 == claimed && derived.1 == pool.bump
}

/// Confirms a derived authority against the claimed one and the recorded
/// bump seed, and hands back the seeds that sign for it.
pub fn signer_seeds_for(
    pool_state: &PoolState,
    derived: (Address, u8),
    claimed: &Address,
) -> (result: Result<SignerSeeds, ErrorCode>)
    ensures
        match result {
            Ok(seeds) => authority_confirmed(*pool_state, derived, *claimed) && seeds
                == (SignerSeeds { label: POOL_ID_SEED, pool: pool_state.pool_id, bump: derived.1 }),
            Err(e) => !authority_confirmed(*pool_state, derived, *claimed) && e
                == ErrorCode::InvalidPoolAuthority,
        },
{
    if !derived.0.same_as(claimed) || derived.1 != pool_state.bump {
        return Err(ErrorCode::InvalidPoolAuthority);
    }
    Ok(SignerSeeds { label: POOL_ID_SEED, pool: pool_state.pool_id, bump: derived.1 })
}

/// Recomputes the pool's authority under `program_id`, checks it against the
/// authority that the caller presents, and hands back the seeds with which
/// the program signs a transfer out of custody.
pub fn create_cpi_context(
    pool_state: &PoolState,
    program_id: &Address,
    pool_authority: &Address,
) -> (result: Result<SignerSeeds, ErrorCode>)
    ensures
        match program_address(POOL_ID_SEED@, pool_state.pool_id@, program_id@) {
            Some((bytes, bump)) => if bytes == pool_authority@ && bump == pool_state.bump {
                result == Ok::<SignerSeeds, ErrorCode>(
                    SignerSeeds { label: POOL_ID_SEED, pool: pool_state.pool_id, bump },
                )
            } else {
                result == Err::<SignerSeeds, ErrorCode>(ErrorCode::InvalidPoolAuthority)
            },
            None => result == Err::<SignerSeeds, ErrorCode>(ErrorCode::InvalidPoolAuthority),
        },
{
    let derived = pool_state.get_pool_authority(program_id)?;
    proof {
        lemma_address_view_injective(derived.0, *pool_authority);
    }
    signer_seeds_for(pool_state, derived, pool_authority)
}

impl PoolState {
    /// Derives the address that holds the pool's funds under `program_id`,
    /// with its bump seed.
    pub fn get_pool_authority(&self, program_id: &Address) -> (result: Result<
        (Address, u8),
        ErrorCode,
    >)
        ensures
            match program_address(POOL_ID_SEED@, self.pool_id@, program_id@) {
                Some((bytes, bump)) => result matches Ok((address, b)) && address@ == bytes && b
                    == bump,
                None => result == Err::<(Address, u8), ErrorCode>(ErrorCode::InvalidPoolAuthority),
            },
    {
        derive_pool_authority(&self.pool_id, program_id)
    }
}

} // verus!
