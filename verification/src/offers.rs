//! The life of an offer: created, filled in parts, extended, and in the end
//! filled, cancelled or closed after its expiration.

use vstd::prelude::*;
use crate::accounts::{AcceptOffer, CancelOffer, CloseExpiredOffer, CreateOffer, ExtendOffer};
use crate::error::OtcError;
use crate::events::{OfferCancelled, OfferCreated, OfferExecuted, OfferExpired, OfferExtended};
use crate::keys::{contains_key, Pubkey};
use crate::laws::fill_keeps_the_offer_sound;
use crate::lifecycle::{offer_after, transfers_of, Moment, OfferRequest};
use crate::policy::{
    check_pair, expires_within_lifetime, meets_minimum, pair_refusal, within_lifetime,
};
use crate::pricing::{fee_amount, fee_of, take_amount, take_of};
use crate::settlement::{Endpoint, Signatory, Transfer};
use crate::state::{Offer, PoolView};

verus! {

/// Why a fill of `fill_amount_b` by `taker` at time `now` is refused, if it is:
/// the first of the conditions below that fails.
pub open spec fn accept_refusal(
    pool: PoolView,
    offer: Offer,
    taker: Pubkey,
    now: i64,
    fill_amount_b: u64,
) -> Option<OtcError> {
    let take_a = take_of(
        offer.original_amount_a as int,
        offer.original_amount_b as int,
        fill_amount_b as int,
    );
    if pool.paused {
        Some(OtcError::PoolIsPaused)
    } else if offer.fulfilled {
        Some(OtcError::OfferAlreadyFulfilled)
    } else if now > offer.expiration_ts {
        Some(OtcError::OfferExpired)
    } else if !pool.is_partner(taker) {
        Some(OtcError::UnauthorizedPartner)
    } else if fill_amount_b == 0 || fill_amount_b > offer.amount_b {
        Some(OtcError::InvalidFillAmount)
    } else if offer.original_amount_b == 0 {
        Some(OtcError::ArithmeticOverflow)
    } else if take_a > offer.amount_a {
        Some(OtcError::InvalidFillAmount)
    } else if fee_of(take_a, pool.fee_bps as int) > take_a {
        Some(OtcError::ArithmeticOverflow)
    } else {
        None
    }
}

/// The offer after a fill of `fill_amount_b`: both legs shrink, the A leg by
/// the fill's price, and the offer is terminal once the B leg is used up.
pub open spec fn offer_after_fill(offer: Offer, fill_amount_b: u64) -> Offer {
    let take_a = take_of(
        offer.original_amount_a as int,
        offer.original_amount_b as int,
        fill_amount_b as int,
    );
    Offer {
        amount_a: (offer.amount_a - take_a) as u64,
        amount_b: (offer.amount_b - fill_amount_b) as u64,
        fulfilled: offer.fulfilled || offer.amount_b == fill_amount_b,
        ..offer
    }
}

/// The transfers that settle a fill, in order: the taker pays the maker,
/// the escrow pays the fee, the escrow pays the taker the rest.
pub open spec fn fill_transfers(fill_amount_b: u64, take_a: u64, fee: u64) -> Seq<Transfer> {
    seq![
        Transfer {
            source: Endpoint::TakerSource,
            destination: Endpoint::MakerDestination,
            authority: Signatory::Taker,
            amount: fill_amount_b,
        },
        Transfer {
            source: Endpoint::Escrow,
            destination: Endpoint::Treasury,
            authority: Signatory::Offer,
            amount: fee,
        },
        Transfer {
            source: Endpoint::Escrow,
            destination: Endpoint::TakerDestination,
            authority: Signatory::Offer,
            amount: (take_a - fee) as u64,
        },
    ]
}

/// Fills `fill_amount_b` of the offer's B leg on behalf of `ctx.taker`.
///
/// The fill is priced at the offer's original ratio, rounded down, and the
/// fee is charged on what leaves the escrow. A refused fill changes nothing.
pub fn accept_offer(ctx: &mut AcceptOffer, fill_amount_b: u64) -> (r: Result<
    (OfferExecuted, Vec<Transfer>),
    OtcError,
>)
    ensures
        match accept_refusal(
            old(ctx).pool@,
            old(ctx).offer,
            old(ctx).taker,
            old(ctx).clock.unix_timestamp,
            fill_amount_b,
        ) {
            Some(e) => r == Err::<(OfferExecuted, Vec<Transfer>), OtcError>(e) && *final(ctx)
                == *old(ctx),
            None => {
                let before = old(ctx).offer;
                let after = offer_after_fill(before, fill_amount_b);
                let take_a = take_of(
                    before.original_amount_a as int,
                    before.original_amount_b as int,
                    fill_amount_b as int,
                );
                let fee = fee_of(take_a, old(ctx).pool.fee_bps as int);
                &&& *final(ctx) == (AcceptOffer { offer: after, ..*old(ctx) })
                &&& r matches Ok((event, transfers))
                &&& event == (OfferExecuted {
                    maker: before.maker,
                    taker: old(ctx).taker,
                    mint_a: before.mint_a,
                    mint_b: before.mint_b,
                    filled_amount_a: take_a as u64,
                    filled_amount_b: fill_amount_b,
                    remaining_amount_a: after.amount_a,
                    remaining_amount_b: after.amount_b,
                })
                &&& transfers@ == fill_transfers(fill_amount_b, take_a as u64, fee as u64)
                &&& 0 <= fee <= take_a <= before.amount_a
            },
        },
        final(ctx).offer == offer_after(
            old(ctx).offer,
            (Moment {
                pool: old(ctx).pool@,
                now: old(ctx).clock.unix_timestamp,
                request: OfferRequest::Accept { taker: old(ctx).taker, fill_amount_b },
            }),
        ),
        r matches Ok((_, transfers)) ==> transfers@ == transfers_of(
            old(ctx).offer,
            (Moment {
                pool: old(ctx).pool@,
                now: old(ctx).clock.unix_timestamp,
                request: OfferRequest::Accept { taker: old(ctx).taker, fill_amount_b },
            }),
        ),
        old(ctx).offer.evolves_to(final(ctx).offer),
        old(ctx).offer.wf() ==> final(ctx).offer.wf(),
        old(ctx).offer.is_backed() ==> final(ctx).offer.is_backed(),
{
    if ctx.pool.paused {
        return Err(OtcError::PoolIsPaused);
    }
    if ctx.offer.fulfilled {
        return Err(OtcError::OfferAlreadyFulfilled);
    }
    if ctx.clock.unix_timestamp > ctx.offer.expiration_ts {
        return Err(OtcError::OfferExpired);
    }
    if !contains_key(&ctx.pool.partners, &ctx.taker) {
        return Err(OtcError::UnauthorizedPartner);
    }
    if fill_amount_b == 0 || fill_amount_b > ctx.offer.amount_b {
        return Err(OtcError::InvalidFillAmount);
    }
    let take_wide = match take_amount(
        ctx.offer.original_amount_a,
        ctx.offer.original_amount_b,
        fill_amount_b,
    ) {
        Some(t) => t,
        None => {
            return Err(OtcError::ArithmeticOverflow);
        },
    };
    if take_wide > ctx.offer.amount_a as u128 {
        return Err(OtcError::InvalidFillAmount);
    }
    let take_a = take_wide as u64;
    let fee = match fee_amount(take_a, ctx.pool.fee_bps) {
        Some(f) => f,
        None => {
            return Err(OtcError::ArithmeticOverflow);
        },
    };
    let net_a = take_a - fee;
    proof {
        fill_keeps_the_offer_sound(
            ctx.pool@,
            ctx.offer,
            ctx.taker,
            ctx.clock.unix_timestamp,
            fill_amount_b,
        );
    }

    ctx.offer.amount_b = ctx.offer.amount_b - fill_amount_b;
    ctx.offer.amount_a = ctx.offer.amount_a - take_a;
    if ctx.offer.amount_b == 0 {
        ctx.offer.fulfilled = true;
    }
    let event = OfferExecuted {
        maker: ctx.offer.maker,
        taker: ctx.taker,
        mint_a: ctx.offer.mint_a,
        mint_b: ctx.offer.mint_b,
        filled_amount_a: take_a,
        filled_amount_b: fill_amount_b,
        remaining_amount_a: ctx.offer.amount_a,
        remaining_amount_b: ctx.offer.amount_b,
    };
    let mut transfers: Vec<Transfer> = Vec::new();
    transfers.push(
        Transfer {
            source: Endpoint::TakerSource,
            destination: Endpoint::MakerDestination,
            authority: Signatory::Taker,
            amount: fill_amount_b,
        },
    );
    transfers.push(
        Transfer {
            source: Endpoint::Escrow,
            destination: Endpoint::Treasury,
            authority: Signatory::Offer,
            amount: fee,
        },
    );
    transfers.push(
        Transfer {
            source: Endpoint::Escrow,
            destination: Endpoint::TakerDestination,
            authority: Signatory::Offer,
            amount: net_a,
        },
    );
    Ok((event, transfers))
}

/// Why an offer of `amount_a` for `amount_b`, expiring at `expiration_ts`, is
/// refused at time `now`, if it is: the first of the conditions below that
/// fails.
pub open spec fn create_refusal(
    pool: PoolView,
    maker: Pubkey,
    mint_a: Pubkey,
    mint_b: Pubkey,
    now: i64,
    amount_a: u64,
    amount_b: u64,
    expiration_ts: i64,
) -> Option<OtcError> {
    if pool.paused {
        Some(OtcError::PoolIsPaused)
    } else if !meets_minimum(pool, amount_a, amount_b) {
        Some(OtcError::SwapBelowMinimum)
    } else if !within_lifetime(pool, now, expiration_ts) {
        Some(OtcError::ExpirationTooLong)
    } else if !pool.is_partner(maker) {
        Some(OtcError::UnauthorizedPartner)
    } else {
        pair_refusal(pool, mint_a, mint_b)
    }
}

/// A new offer: nothing filled yet, so what is left of each leg is the whole
/// leg.
pub open spec fn new_offer(
    maker: Pubkey,
    mint_a: Pubkey,
    mint_b: Pubkey,
    amount_a: u64,
    amount_b: u64,
    expiration_ts: i64,
    bump: u8,
) -> Offer {
    Offer {
        maker,
        mint_a,
        mint_b,
        original_amount_a: amount_a,
        original_amount_b: amount_b,
        amount_a,
        amount_b,
        expiration_ts,
        fulfilled: false,
        bump,
    }
}

/// The transfer that funds a new offer: the maker locks the A leg in escrow.
pub open spec fn funding_transfers(amount_a: u64) -> Seq<Transfer> {
    seq![
        Transfer {
            source: Endpoint::MakerSource,
            destination: Endpoint::Escrow,
            authority: Signatory::Maker,
            amount: amount_a,
        },
    ]
}

/// Posts an offer of `amount_a` of `ctx.mint_a` for `amount_b` of
/// `ctx.mint_b`, open until `expiration_ts`, into the fresh record
/// `ctx.offer`. A refused offer leaves the record as it was.
pub fn create_offer(ctx: &mut CreateOffer, amount_a: u64, amount_b: u64, expiration_ts: i64) -> (r:
    Result<(OfferCreated, Vec<Transfer>), OtcError>)
    ensures
        match create_refusal(
            old(ctx).pool@,
            old(ctx).maker,
            old(ctx).mint_a,
            old(ctx).mint_b,
            old(ctx).clock.unix_timestamp,
            amount_a,
            amount_b,
            expiration_ts,
        ) {
            Some(e) => r == Err::<(OfferCreated, Vec<Transfer>), OtcError>(e) && *final(ctx)
                == *old(ctx),
            None => {
                let offer = new_offer(
                    old(ctx).maker,
                    old(ctx).mint_a,
                    old(ctx).mint_b,
                    amount_a,
                    amount_b,
                    expiration_ts,
                    old(ctx).bump,
                );
                &&& *final(ctx) == (CreateOffer { offer, ..*old(ctx) })
                &&& r matches Ok((event, transfers))
                &&& event == (OfferCreated {
                    maker: old(ctx).maker,
                    mint_a: old(ctx).mint_a,
                    mint_b: old(ctx).mint_b,
                    amount_a,
                    amount_b,
                    expiration_ts,
                })
                &&& transfers@ == funding_transfers(amount_a)
            },
        },
        r is Ok ==> final(ctx).offer.wf(),
        r is Ok ==> final(ctx).offer.is_backed(),
        r is Ok ==> final(ctx).offer.is_live(),
{
    if ctx.pool.paused {
        return Err(OtcError::PoolIsPaused);
    }
    if !(amount_a >= ctx.pool.min_swap_amount && amount_b >= ctx.pool.min_swap_amount) {
        return Err(OtcError::SwapBelowMinimum);
    }
    if !expires_within_lifetime(&ctx.pool, ctx.clock.unix_timestamp, expiration_ts) {
        return Err(OtcError::ExpirationTooLong);
    }
    if !contains_key(&ctx.pool.partners, &ctx.maker) {
        return Err(OtcError::UnauthorizedPartner);
    }
    match check_pair(&ctx.pool, &ctx.mint_a, &ctx.mint_b) {
        Err(e) => {
            return Err(e);
        },
        Ok(_) => {},
    }
    ctx.offer = Offer {
        maker: ctx.maker,
        mint_a: ctx.mint_a,
        mint_b: ctx.mint_b,
        original_amount_a: amount_a,
        original_amount_b: amount_b,
        amount_a,
        amount_b,
        expiration_ts,
        fulfilled: false,
        bump: ctx.bump,
    };
    let event = OfferCreated {
        maker: ctx.maker,
        mint_a: ctx.mint_a,
        mint_b: ctx.mint_b,
        amount_a,
        amount_b,
        expiration_ts,
    };
    let mut transfers: Vec<Transfer> = Vec::new();
    transfers.push(
        Transfer {
            source: Endpoint::MakerSource,
            destination: Endpoint::Escrow,
            authority: Signatory::Maker,
            amount: amount_a,
        },
    );
    Ok((event, transfers))
}

/// Why `caller` may not cancel the offer at time `now`, if they may not: the
/// first of the conditions below that fails.
pub open spec fn cancel_refusal(pool: PoolView, offer: Offer, caller: Pubkey, now: i64) -> Option<
    OtcError,
> {
    if offer.maker != caller {
        Some(OtcError::Unauthorized)
    } else if offer.fulfilled {
        Some(OtcError::OfferAlreadyFulfilled)
    } else if now > offer.expiration_ts {
        Some(OtcError::OfferExpired)
    } else if fee_of(offer.amount_a as int, pool.fee_bps as int) > offer.amount_a {
        Some(OtcError::ArithmeticOverflow)
    } else {
        None
    }
}

/// The transfers that settle a cancellation, in order: the escrow pays the
/// fee on what is left, then refunds the maker the rest.
pub open spec fn refund_transfers(amount_a: u64, fee: u64) -> Seq<Transfer> {
    seq![
        Transfer {
            source: Endpoint::Escrow,
            destination: Endpoint::Treasury,
            authority: Signatory::Offer,
            amount: fee,
        },
        Transfer {
            source: Endpoint::Escrow,
            destination: Endpoint::MakerDestination,
            authority: Signatory::Offer,
            amount: (amount_a - fee) as u64,
        },
    ]
}

/// Withdraws the offer on behalf of its maker, up to and including the moment
/// of expiration. The fee is charged on what is left of the A leg, the rest
/// goes back to the maker, and the offer becomes terminal with its amounts
/// as they were. A refused cancellation changes nothing.
pub fn cancel_offer(ctx: &mut CancelOffer) -> (r: Result<(OfferCancelled, Vec<Transfer>), OtcError>)
    ensures
        match cancel_refusal(
            old(ctx).pool@,
            old(ctx).offer,
            old(ctx).maker,
            old(ctx).clock.unix_timestamp,
        ) {
            Some(e) => r == Err::<(OfferCancelled, Vec<Transfer>), OtcError>(e) && *final(ctx)
                == *old(ctx),
            None => {
                let before = old(ctx).offer;
                let fee = fee_of(before.amount_a as int, old(ctx).pool.fee_bps as int);
                &&& *final(ctx) == (CancelOffer { offer: before.closed(), ..*old(ctx) })
                &&& r matches Ok((event, transfers))
                &&& event == (OfferCancelled { maker: old(ctx).maker })
                &&& transfers@ == refund_transfers(before.amount_a, fee as u64)
                &&& 0 <= fee <= before.amount_a
            },
        },
        final(ctx).offer == offer_after(
            old(ctx).offer,
            (Moment {
                pool: old(ctx).pool@,
                now: old(ctx).clock.unix_timestamp,
                request: OfferRequest::Cancel { caller: old(ctx).maker },
            }),
        ),
        r matches Ok((_, transfers)) ==> transfers@ == transfers_of(
            old(ctx).offer,
            (Moment {
                pool: old(ctx).pool@,
                now: old(ctx).clock.unix_timestamp,
                request: OfferRequest::Cancel { caller: old(ctx).maker },
            }),
        ),
        old(ctx).offer.evolves_to(final(ctx).offer),
        old(ctx).offer.wf() ==> final(ctx).offer.wf(),
        old(ctx).offer.is_backed() ==> final(ctx).offer.is_backed(),
{
    if ctx.offer.maker != ctx.maker {
        return Err(OtcError::Unauthorized);
    }
    if ctx.offer.fulfilled {
        return Err(OtcError::OfferAlreadyFulfilled);
    }
    if ctx.clock.unix_timestamp > ctx.offer.expiration_ts {
        return Err(OtcError::OfferExpired);
    }
    let fee = match fee_amount(ctx.offer.amount_a, ctx.pool.fee_bps) {
        Some(f) => f,
        None => {
            return Err(OtcError::ArithmeticOverflow);
        },
    };
    let net = ctx.offer.amount_a - fee;

    ctx.offer.fulfilled = true;
    let event = OfferCancelled { maker: ctx.maker };
    let mut transfers: Vec<Transfer> = Vec::new();
    transfers.push(
        Transfer {
            source: Endpoint::Escrow,
            destination: Endpoint::Treasury,
            authority: Signatory::Offer,
            amount: fee,
        },
    );
    transfers.push(
        Transfer {
            source: Endpoint::Escrow,
            destination: Endpoint::MakerDestination,
            authority: Signatory::Offer,
            amount: net,
        },
    );
    Ok((event, transfers))
}

/// Why `caller` may not move the offer's expiration to `new_expiration_ts`
/// at time `now`, if they may not: the first of the conditions below that
/// fails.
pub open spec fn extend_refusal(
    pool: PoolView,
    offer: Offer,
    caller: Pubkey,
    now: i64,
    new_expiration_ts: i64,
) -> Option<OtcError> {
    if offer.maker != caller {
        Some(OtcError::Unauthorized)
    } else if offer.fulfilled {
        Some(OtcError::OfferAlreadyFulfilled)
    } else if new_expiration_ts <= offer.expiration_ts {
        Some(OtcError::InvalidExtension)
    } else if !within_lifetime(pool, now, new_expiration_ts) {
        Some(OtcError::ExpirationTooLong)
    } else {
        None
    }
}

/// Moves the offer's expiration forward to `new_expiration_ts` on behalf of
/// its maker; nothing else about the offer changes. A refused extension
/// changes nothing.
pub fn extend_offer(ctx: &mut ExtendOffer, new_expiration_ts: i64) -> (r: Result<
    OfferExtended,
    OtcError,
>)
    ensures
        match extend_refusal(
            old(ctx).pool@,
            old(ctx).offer,
            old(ctx).maker,
            old(ctx).clock.unix_timestamp,
            new_expiration_ts,
        ) {
            Some(e) => r == Err::<OfferExtended, OtcError>(e) && *final(ctx) == *old(ctx),
            None => {
                &&& *final(ctx) == (ExtendOffer {
                    offer: old(ctx).offer.extended_to(new_expiration_ts),
                    ..*old(ctx)
                })
                &&& r == Ok::<OfferExtended, OtcError>(
                    OfferExtended { maker: old(ctx).maker, new_expiration_ts },
                )
            },
        },
        final(ctx).offer == offer_after(
            old(ctx).offer,
            (Moment {
                pool: old(ctx).pool@,
                now: old(ctx).clock.unix_timestamp,
                request: OfferRequest::Extend { caller: old(ctx).maker, new_expiration_ts },
            }),
        ),
        old(ctx).offer.evolves_to(final(ctx).offer),
        old(ctx).offer.wf() ==> final(ctx).offer.wf(),
        old(ctx).offer.is_backed() ==> final(ctx).offer.is_backed(),
{
    if ctx.offer.maker != ctx.maker {
        return Err(OtcError::Unauthorized);
    }
    if ctx.offer.fulfilled {
        return Err(OtcError::OfferAlreadyFulfilled);
    }
    if new_expiration_ts <= ctx.offer.expiration_ts {
        return Err(OtcError::InvalidExtension);
    }
    if !expires_within_lifetime(&ctx.pool, ctx.clock.unix_timestamp, new_expiration_ts) {
        return Err(OtcError::ExpirationTooLong);
    }
    ctx.offer.expiration_ts = new_expiration_ts;
    Ok(OfferExtended { maker: ctx.maker, new_expiration_ts })
}

/// Why the offer cannot be closed as expired at time `now`, if it cannot.
pub open spec fn close_refusal(offer: Offer, now: i64) -> Option<OtcError> {
    if offer.fulfilled {
        Some(OtcError::OfferAlreadyFulfilled)
    } else if now <= offer.expiration_ts {
        Some(OtcError::OfferNotExpired)
    } else {
        None
    }
}

/// Marks an offer terminal once its expiration has passed. Anyone may do so.
///
/// Nothing leaves the escrow: the offer keeps its amounts, and what is left
/// of the A leg is not refunded to the maker. A refused close changes
/// nothing.
pub fn close_expired_offer(ctx: &mut CloseExpiredOffer) -> (r: Result<OfferExpired, OtcError>)
    ensures
        match close_refusal(old(ctx).offer, old(ctx).clock.unix_timestamp) {
            Some(e) => r == Err::<OfferExpired, OtcError>(e) && *final(ctx) == *old(ctx),
            None => {
                &&& *final(ctx) == (CloseExpiredOffer {
                    offer: old(ctx).offer.closed(),
                    ..*old(ctx)
                })
                &&& r == Ok::<OfferExpired, OtcError>(
                    OfferExpired {
                        maker: old(ctx).offer.maker,
                        expiration_ts: old(ctx).offer.expiration_ts,
                    },
                )
            },
        },
        final(ctx).offer == offer_after(
            old(ctx).offer,
            (Moment {
                pool: old(ctx).pool@,
                now: old(ctx).clock.unix_timestamp,
                request: OfferRequest::CloseExpired,
            }),
        ),
        old(ctx).offer.evolves_to(final(ctx).offer),
        old(ctx).offer.wf() ==> final(ctx).offer.wf(),
        old(ctx).offer.is_backed() ==> final(ctx).offer.is_backed(),
{
    if ctx.offer.fulfilled {
        return Err(OtcError::OfferAlreadyFulfilled);
    }
    if !(ctx.clock.unix_timestamp > ctx.offer.expiration_ts) {
        return Err(OtcError::OfferNotExpired);
    }
    ctx.offer.fulfilled = true;
    Ok(OfferExpired { maker: ctx.offer.maker, expiration_ts: ctx.offer.expiration_ts })
}

} // verus!
