//! Derivation of the address that holds the pool's funds.

use vstd::prelude::*;
use anchor_lang::prelude::Pubkey;
use crate::address::Address;
use crate::constants::POOL_ID_SEED;
use crate::errors::ErrorCode;

verus! {

/// The program-derived address, with its bump seed, that the runtime assigns to
/// `program_id` for the two seeds `label` and `key`, or `None` where it assigns none.
pub uninterp spec fn program_address(
    label: Seq<u8>,
    key: Seq<u8>,
    program_id: Seq<u8>,
) -> Option<(Seq<u8>, u8)>;

/// An optional address with bump seed, as bytes.
pub open spec fn derived_view(found: Option<(Address, u8)>) -> Option<(Seq<u8>, u8)> {
    match found {
        Some((address, bump)) => Some((address@, bump)),
        None => None,
    }
}

/// Calls `Pubkey::try_find_program_address` with the seeds `label` and `key`.
///
/// Trusted: the search depends on its arguments alone, so its outcome is the
/// named value `program_address`. Nothing is claimed about which address or
/// bump seed it is, nor about when the search finds none.
#[verifier::external_body]
fn find_program_address(
    label: &[u8],
    key: &Address,
    program_id: &Address,
) -> (found: Option<(Address, u8)>)
    ensures
        derived_view(found) == program_address(label@, key@, program_id@),
{
    let id = Pubkey::new_from_array(program_id.bytes);
    match Pubkey::try_find_program_address(&[label, &key.bytes], &id) {
        Some((address, bump)) => Some((Address { bytes: address.to_bytes() }, bump)),
        None => None,
    }
}

/// Says what a derivation outcome means for the pool: the authority and its
/// bump seed where one was found, `InvalidPoolAuthority` where none was.
pub fn authority_from(found: Option<(Address, u8)>) -> (result: Result<(Address, u8), ErrorCode>)
    ensures
        result == match found {
            Some(pair) => Ok::<(Address, u8), ErrorCode>(pair),
            None => Err::<(Address, u8), ErrorCode>(ErrorCode::InvalidPoolAuthority),
        },
{
    match found {
        Some(pair) => Ok(pair),
        None => Err(ErrorCode::InvalidPoolAuthority),
    }
}

/// Derives the authority of the pool `pool_id` under `program_id`.
pub fn derive_pool_authority(
    pool_id: &Address,
    program_id: &Address,
) -> (result: Result<(Address, u8), ErrorCode>)
    ensures
        match program_address(POOL_ID_SEED@, pool_id@, program_id@) {
            Some((bytes, bump)) => result matches Ok((address, b)) && address@ == bytes && b == bump,
            None => result == Err::<(Address, u8), ErrorCode>(ErrorCode::InvalidPoolAuthority),
        },
{
    let seed = POOL_ID_SEED;
    let found = find_program_address(seed.as_slice(), pool_id, program_id);
    authority_from(found)
}

} // verus!
