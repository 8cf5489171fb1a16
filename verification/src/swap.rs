//! The direct swap: two partners exchange two assets in one step, with no
//! escrow and no fee.

use vstd::prelude::*;
use crate::accounts::SwapDirect;
use crate::error::OtcError;
use crate::events::SwapDirectExecuted;
use crate::keys::{contains_key, Pubkey};
use crate::policy::{check_pair, meets_minimum, pair_refusal};
use crate::settlement::{Endpoint, Signatory, Transfer};
use crate::state::PoolView;

verus! {

/// Why a direct swap is refused, if it is: the first of the conditions below
/// that fails.
pub open spec fn swap_refusal(
    pool: PoolView,
    party_a: Pubkey,
    party_b: Pubkey,
    mint_a: Pubkey,
    mint_b: Pubkey,
    amount_a: u64,
    amount_b: u64,
) -> Option<OtcError> {
    if pool.paused {
        Some(OtcError::PoolIsPaused)
    } else if !meets_minimum(pool, amount_a, amount_b) {
        Some(OtcError::SwapBelowMinimum)
    } else if !pool.is_partner(party_a) || !pool.is_partner(party_b) {
        Some(OtcError::UnauthorizedPartner)
    } else {
        pair_refusal(pool, mint_a, mint_b)
    }
}

/// The two legs of a direct swap, in order: party A pays party B, then
/// party B pays party A.
pub open spec fn swap_transfers(amount_a: u64, amount_b: u64) -> Seq<Transfer> {
    seq![
        Transfer {
            source: Endpoint::PartyASource,
            destination: Endpoint::PartyBDestination,
            authority: Signatory::PartyA,
            amount: amount_a,
        },
        Transfer {
            source: Endpoint::PartyBSource,
            destination: Endpoint::PartyADestination,
            authority: Signatory::PartyB,
            amount: amount_b,
        },
    ]
}

/// Swaps `amount_a` of party A's mint for `amount_b` of party B's, whole and
/// at once. Nothing is recorded and no fee is charged: the result is the two
/// transfers to carry out.
pub fn swap_direct(ctx: &SwapDirect, amount_a: u64, amount_b: u64) -> (r: Result<
    (SwapDirectExecuted, Vec<Transfer>),
    OtcError,
>)
    ensures
        match swap_refusal(
            ctx.pool@,
            ctx.party_a,
            ctx.party_b,
            ctx.mint_a,
            ctx.mint_b,
            amount_a,
            amount_b,
        ) {
            Some(e) => r == Err::<(SwapDirectExecuted, Vec<Transfer>), OtcError>(e),
            None => {
                &&& r matches Ok((event, transfers))
                &&& event == (SwapDirectExecuted {
                    party_a: ctx.party_a,
                    party_b: ctx.party_b,
                    mint_a: ctx.mint_a,
                    mint_b: ctx.mint_b,
                    filled_amount_a: amount_a,
                    filled_amount_b: amount_b,
                    remaining_amount_a: amount_a,
                    remaining_amount_b: amount_b,
                })
                &&& transfers@ == swap_transfers(amount_a, amount_b)
            },
        },
{
    if ctx.pool.paused {
        return Err(OtcError::PoolIsPaused);
    }
    if !(amount_a >= ctx.pool.min_swap_amount && amount_b >= ctx.pool.min_swap_amount) {
        return Err(OtcError::SwapBelowMinimum);
    }
    if !contains_key(&ctx.pool.partners, &ctx.party_a) {
        return Err(OtcError::UnauthorizedPartner);
    }
    if !contains_key(&ctx.pool.partners, &ctx.party_b) {
        return Err(OtcError::UnauthorizedPartner);
    }
    match check_pair(&ctx.pool, &ctx.mint_a, &ctx.mint_b) {
        Err(e) => {
            return Err(e);
        },
        Ok(_) => {},
    }
    let event = SwapDirectExecuted {
        party_a: ctx.party_a,
        party_b: ctx.party_b,
        mint_a: ctx.mint_a,
        mint_b: ctx.mint_b,
        filled_amount_a: amount_a,
        filled_amount_b: amount_b,
        remaining_amount_a: amount_a,
        remaining_amount_b: amount_b,
    };
    let mut transfers: Vec<Transfer> = Vec::new();
    transfers.push(
        Transfer {
            source: Endpoint::PartyASource,
            destination: Endpoint::PartyBDestination,
            authority: Signatory::PartyA,
            amount: amount_a,
        },
    );
    transfers.push(
        Transfer {
            source: Endpoint::PartyBSource,
            destination: Endpoint::PartyADestination,
            authority: Signatory::PartyB,
            amount: amount_b,
        },
    );
    Ok((event, transfers))
}

} // verus!
