//! Checks of the token mint and of token accounts against the pool.

use vstd::prelude::*;
use crate::errors::ErrorCode;
use crate::events::FreezeAuthorityWarning;
use crate::types::{MintInfo, PoolState, TokenAccountInfo};

verus! {

/// Why a mint is not the pool's, if it is not.
pub open spec fn mint_refusal(pool: PoolState, mint: MintInfo) -> Option<ErrorCode> {
    if mint.key != pool.token_mint {
        Some(ErrorCode::InvalidTokenMint)
    } else if mint.decimals != pool.token_decimals {
        Some(ErrorCode::InvalidTokenDecimals)
    } else if mint.freeze_authority is Some {
        Some(ErrorCode::TokenMintHasFreezeAuthority)
    } else {
        None
    }
}

/// Why a token account cannot be used with the pool, if it cannot.
pub open spec fn token_account_refusal(pool: PoolState, account: TokenAccountInfo) -> Option<
    ErrorCode,
> {
    if account.mint != pool.token_mint {
        Some(ErrorCode::InvalidTokenAccount)
    } else if account.delegate is Some {
        Some(ErrorCode::TokenAccountDelegated)
    } else {
        None
    }
}

impl PoolState {
    /// Checks that `mint` is the pool's mint, has the recorded decimals, and
    /// has nobody who could freeze its accounts. A mint that passes is
    /// reported with the time of the check.
    pub fn check_token_mint(&self, mint: &MintInfo, current_time: i64) -> (result: Result<
        FreezeAuthorityWarning,
        ErrorCode,
    >)
        ensures
            result == match mint_refusal(*self, *mint) {
                Some(e) => Err::<FreezeAuthorityWarning, ErrorCode>(e),
                None => Ok::<FreezeAuthorityWarning, ErrorCode>(
                    FreezeAuthorityWarning {
                        pool: self.pool_id,
                        token_mint: self.token_mint,
                        ts: current_time,
                    },
                ),
            },
    {
        if !mint.key.same_as(&self.token_mint) {
            return Err(ErrorCode::InvalidTokenMint);
        }
        if mint.decimals != self.token_decimals {
            return Err(ErrorCode::InvalidTokenDecimals);
        }
        if mint.freeze_authority.is_some() {
            return Err(ErrorCode::TokenMintHasFreezeAuthority);
        }
        Ok(
            FreezeAuthorityWarning {
                pool: self.pool_id,
                token_mint: self.token_mint,
                ts: current_time,
            },
        )
    }

    /// Checks that `account` holds the pool's token and has no delegate.
    pub fn check_token_account(&self, account: &TokenAccountInfo) -> (result: Result<(), ErrorCode>)
        ensures
            result == match token_account_refusal(*self, *account) {
                Some(e) => Err::<(), ErrorCode>(e),
                None => Ok::<(), ErrorCode>(()),
            },
    {
        if !account.mint.same_as(&self.token_mint) {
            return Err(ErrorCode::InvalidTokenAccount);
        }
        if account.delegate.is_some() {
            return Err(ErrorCode::TokenAccountDelegated);
        }
        Ok(())
    }
}

} // verus!
