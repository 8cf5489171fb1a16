//! The pool's trading rules that more than one operation checks.

use vstd::prelude::*;
use crate::error::OtcError;
use crate::keys::{contains_key, Pubkey};
use crate::state::{position_of_pair, Pool, PoolView};

verus! {

/// Both legs reach the pool's minimum.
pub open spec fn meets_minimum(pool: PoolView, amount_a: u64, amount_b: u64) -> bool {
    amount_a >= pool.min_swap_amount && amount_b >= pool.min_swap_amount
}

/// An expiration at `expiration_ts` is at most the pool's longest lifetime
/// away from `now`.
pub open spec fn within_lifetime(pool: PoolView, now: i64, expiration_ts: i64) -> bool {
    expiration_ts <= now + pool.max_expiration_secs
}

/// Why the ordered pair `(mint_a, mint_b)` may not be traded, if it may not:
/// a mint is not whitelisted, or the pair is not supported.
pub open spec fn pair_refusal(pool: PoolView, mint_a: Pubkey, mint_b: Pubkey) -> Option<OtcError> {
    if !pool.is_whitelisted(mint_a) || !pool.is_whitelisted(mint_b) {
        Some(OtcError::MintNotWhitelisted)
    } else if !pool.supports_pair(mint_a, mint_b) {
        Some(OtcError::PairNotSupported)
    } else {
        None
    }
}

/// Whether an expiration at `expiration_ts` is within the pool's longest
/// lifetime from `now`. The sum is taken in 128 bits, so it cannot wrap.
pub fn expires_within_lifetime(pool: &Pool, now: i64, expiration_ts: i64) -> (within: bool)
    ensures
        within == within_lifetime(pool@, now, expiration_ts),
{
    (expiration_ts as i128) <= (now as i128) + (pool.max_expiration_secs as i128)
}

/// Checks that both mints are whitelisted and that the ordered pair is
/// supported.
pub fn check_pair(pool: &Pool, mint_a: &Pubkey, mint_b: &Pubkey) -> (r: Result<(), OtcError>)
    ensures
        match pair_refusal(pool@, *mint_a, *mint_b) {
            Some(e) => r == Err::<(), OtcError>(e),
            None => r == Ok::<(), OtcError>(()),
        },
{
    if !contains_key(&pool.whitelisted_mints, mint_a) {
        return Err(OtcError::MintNotWhitelisted);
    }
    if !contains_key(&pool.whitelisted_mints, mint_b) {
        return Err(OtcError::MintNotWhitelisted);
    }
    if position_of_pair(&pool.supported_pairs, mint_a, mint_b).is_none() {
        return Err(OtcError::PairNotSupported);
    }
    Ok(())
}

} // verus!
