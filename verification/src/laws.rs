//! What holds of the protocol as a whole, proved from the operations'
//! contracts.

use vstd::prelude::*;
use crate::error::OtcError;
use crate::governance::{add_pair_refusal, add_partner_refusal, remove_partner_refusal};
use crate::listing::{
    lemma_without_first_keeps_others, lemma_without_first_of_distinct, without_first,
};
use crate::keys::Pubkey;
use crate::offers::{
    accept_refusal, cancel_refusal, close_refusal, create_refusal, extend_refusal, fill_transfers,
    funding_transfers, new_offer, offer_after_fill, refund_transfers,
};
use crate::pricing::{
    fee_of, lemma_fee_within_amount, lemma_take_at_par, lemma_take_of_the_rest,
    lemma_take_within_original, take_of,
};
use crate::settlement::{escrow_guarded, escrow_outflow};
use crate::state::{Offer, Pair, Pool, PoolView};
use crate::swap::{swap_refusal, swap_transfers};

verus! {

/// For every accepted fill, the fee and the taker's share add
/// up to exactly what the fill takes from the A leg; that is what leaves the
/// escrow, it is what the offer's A leg shrinks by, and it is no more than
/// the A leg held before.
pub proof fn fill_conserves_escrow(
    pool: PoolView,
    offer: Offer,
    taker: Pubkey,
    now: i64,
    fill_amount_b: u64,
)
    requires
        accept_refusal(pool, offer, taker, now, fill_amount_b) is None,
    ensures
        ({
            let take_a = take_of(
                offer.original_amount_a as int,
                offer.original_amount_b as int,
                fill_amount_b as int,
            );
            let fee = fee_of(take_a, pool.fee_bps as int);
            let net_a = take_a - fee;
            let transfers = fill_transfers(fill_amount_b, take_a as u64, fee as u64);
            let after = offer_after_fill(offer, fill_amount_b);
            &&& 0 <= fee
            &&& 0 <= net_a
            &&& net_a + fee == take_a
            &&& take_a <= offer.amount_a
            &&& transfers[1].amount == fee
            &&& transfers[2].amount == net_a
            &&& escrow_outflow(transfers) == take_a
            &&& after.amount_a == offer.amount_a - take_a
            &&& after.amount_b == offer.amount_b - fill_amount_b
        }),
{
    let take_a = take_of(
        offer.original_amount_a as int,
        offer.original_amount_b as int,
        fill_amount_b as int,
    );
    let fee = fee_of(take_a, pool.fee_bps as int);
    assert(0 <= take_a && 0 <= fee) by (nonlinear_arith)
        requires
            take_a == (offer.original_amount_a as int) * (fill_amount_b as int) / (
            offer.original_amount_b as int),
            fee == take_a * (pool.fee_bps as int) / 10_000,
            offer.original_amount_b > 0,
    ;
    lemma_fill_outflow(fill_amount_b, take_a as u64, fee as u64);
}

/// A settled fill moves exactly `take_a` out of the escrow.
proof fn lemma_fill_outflow(fill_amount_b: u64, take_a: u64, fee: u64)
    requires
        fee <= take_a,
    ensures
        escrow_outflow(fill_transfers(fill_amount_b, take_a, fee)) == take_a,
{
    let t = fill_transfers(fill_amount_b, take_a, fee);
    let t2 = t.drop_last();
    let t1 = t2.drop_last();
    let t0 = t1.drop_last();
    assert(t0.len() == 0);
    assert(escrow_outflow(t0) == 0);
    assert(t1.last() == t[0]);
    assert(escrow_outflow(t1) == 0);
    assert(t2.last() == t[1]);
    assert(escrow_outflow(t2) == fee);
    assert(t.last() == t[2]);
}

/// Funding an offer puts its whole A leg into the escrow, and cancelling it
/// takes all that is left out again, fee included.
pub proof fn escrow_holds_the_a_leg(amount_a: u64, fee: u64)
    requires
        fee <= amount_a,
    ensures
        escrow_outflow(funding_transfers(amount_a)) == -(amount_a as int),
        escrow_outflow(refund_transfers(amount_a, fee)) == amount_a,
{
    let f = funding_transfers(amount_a);
    assert(f.drop_last().len() == 0);
    assert(escrow_outflow(f.drop_last()) == 0);
    assert(f.last() == f[0]);

    let t = refund_transfers(amount_a, fee);
    let t1 = t.drop_last();
    let t0 = t1.drop_last();
    assert(t0.len() == 0);
    assert(escrow_outflow(t0) == 0);
    assert(t1.last() == t[0]);
    assert(escrow_outflow(t1) == fee);
    assert(t.last() == t[1]);
}

/// Only the offer's own capability moves tokens out of an escrow, and it
/// moves nothing else: in every list of transfers an operation hands back,
/// a transfer comes from the escrow exactly when the offer authorizes it.
pub proof fn escrow_moves_only_by_the_offer(
    amount_a: u64,
    amount_b: u64,
    fill_amount_b: u64,
    take_a: u64,
    fee: u64,
)
    ensures
        escrow_guarded(swap_transfers(amount_a, amount_b)),
        escrow_guarded(funding_transfers(amount_a)),
        escrow_guarded(fill_transfers(fill_amount_b, take_a, fee)),
        escrow_guarded(refund_transfers(amount_a, fee)),
{
}

/// A fill larger than what is left of the B leg is refused,
/// whoever asks and whenever; where nothing else is wrong, the reason is the
/// fill amount.
pub proof fn overfill_is_refused(
    pool: PoolView,
    offer: Offer,
    taker: Pubkey,
    now: i64,
    fill_amount_b: u64,
)
    requires
        fill_amount_b > offer.amount_b,
    ensures
        accept_refusal(pool, offer, taker, now, fill_amount_b) is Some,
        !pool.paused && !offer.fulfilled && now <= offer.expiration_ts && pool.is_partner(taker)
            ==> accept_refusal(pool, offer, taker, now, fill_amount_b) == Some(
            OtcError::InvalidFillAmount,
        ),
{
}

/// An accepted fill leaves a well-formed offer well-formed, changes nothing
/// but the two remaining amounts and the terminal flag, and makes the offer
/// terminal exactly when the B leg is used up.
pub proof fn fill_keeps_the_offer_sound(
    pool: PoolView,
    offer: Offer,
    taker: Pubkey,
    now: i64,
    fill_amount_b: u64,
)
    requires
        accept_refusal(pool, offer, taker, now, fill_amount_b) is None,
    ensures
        offer.evolves_to(offer_after_fill(offer, fill_amount_b)),
        offer.wf() ==> offer_after_fill(offer, fill_amount_b).wf(),
        offer.is_backed() ==> offer_after_fill(offer, fill_amount_b).is_backed(),
        offer_after_fill(offer, fill_amount_b).fulfilled <==> offer_after_fill(
            offer,
            fill_amount_b,
        ).amount_b == 0,
        offer_after_fill(offer, fill_amount_b).amount_b < offer.amount_b,
{
    fill_conserves_escrow(pool, offer, taker, now, fill_amount_b);
    if offer.is_backed() {
        lemma_backing_survives_a_fill(
            offer.original_amount_a as int,
            offer.original_amount_b as int,
            offer.amount_a as int,
            offer.amount_b as int,
            fill_amount_b as int,
        );
    }
}

/// Rounding the price of a fill down leaves the escrow covering the rest.
proof fn lemma_backing_survives_a_fill(
    original_a: int,
    original_b: int,
    amount_a: int,
    amount_b: int,
    fill_b: int,
)
    requires
        0 <= original_a,
        0 < original_b,
        0 <= amount_a,
        0 <= fill_b <= amount_b,
        original_a * amount_b <= amount_a * original_b,
    ensures
        take_of(original_a, original_b, fill_b) <= amount_a,
        original_a * (amount_b - fill_b) <= (amount_a - take_of(original_a, original_b, fill_b))
            * original_b,
{
    let take_a = take_of(original_a, original_b, fill_b);
    assert(take_a * original_b <= original_a * fill_b) by (nonlinear_arith)
        requires
            take_a == original_a * fill_b / original_b,
            0 <= original_a,
            0 <= fill_b,
            0 < original_b,
    ;
    assert(original_a * fill_b <= original_a * amount_b) by (nonlinear_arith)
        requires
            0 <= original_a,
            fill_b <= amount_b,
    ;
    assert(take_a <= amount_a) by (nonlinear_arith)
        requires
            take_a * original_b <= amount_a * original_b,
            0 < original_b,
    ;
    assert(original_a * (amount_b - fill_b) == original_a * amount_b - original_a * fill_b)
        by (nonlinear_arith);
    assert((amount_a - take_a) * original_b == amount_a * original_b - take_a * original_b)
        by (nonlinear_arith);
}

/// The guard against rounding drift never fires on an offer that the
/// protocol itself has made and filled: where the escrow covers what is
/// left at the original price, any fill of at most what is left of the B leg
/// takes at most what is left of the A leg.
pub proof fn backed_offers_never_drift(
    pool: PoolView,
    offer: Offer,
    taker: Pubkey,
    now: i64,
    fill_amount_b: u64,
)
    requires
        offer.is_backed(),
        0 < fill_amount_b <= offer.amount_b,
        offer.original_amount_b > 0,
    ensures
        take_of(
            offer.original_amount_a as int,
            offer.original_amount_b as int,
            fill_amount_b as int,
        ) <= offer.amount_a,
        accept_refusal(pool, offer, taker, now, fill_amount_b) != Some(OtcError::InvalidFillAmount),
{
    lemma_backing_survives_a_fill(
        offer.original_amount_a as int,
        offer.original_amount_b as int,
        offer.amount_a as int,
        offer.amount_b as int,
        fill_amount_b as int,
    );
}

/// Cancelling, extending and closing leave a well-formed, backed offer so,
/// and change it only forward: cancelling and closing make it terminal,
/// extending moves the expiration later, and nothing else changes.
pub proof fn offers_only_move_forward(
    pool: PoolView,
    offer: Offer,
    caller: Pubkey,
    now: i64,
    new_expiration_ts: i64,
)
    ensures
        offer.evolves_to(offer.closed()),
        offer.closed().wf() == offer.wf(),
        offer.closed().is_backed() == offer.is_backed(),
        extend_refusal(pool, offer, caller, now, new_expiration_ts) is None ==> offer.evolves_to(
            offer.extended_to(new_expiration_ts),
        ),
        offer.extended_to(new_expiration_ts).wf() == offer.wf(),
        offer.extended_to(new_expiration_ts).is_backed() == offer.is_backed(),
{
}

/// Where both legs of an offer started equal, every accepted
/// fill takes its own size from the A leg, so the two legs shrink in step.
pub proof fn par_offers_fill_one_for_one(
    pool: PoolView,
    offer: Offer,
    taker: Pubkey,
    now: i64,
    fill_amount_b: u64,
)
    requires
        offer.original_amount_a == offer.original_amount_b,
        accept_refusal(pool, offer, taker, now, fill_amount_b) is None,
    ensures
        take_of(
            offer.original_amount_a as int,
            offer.original_amount_b as int,
            fill_amount_b as int,
        ) == fill_amount_b,
        offer_after_fill(offer, fill_amount_b).amount_a == offer.amount_a - fill_amount_b,
        offer_after_fill(offer, fill_amount_b).amount_b == offer.amount_b - fill_amount_b,
{
    lemma_take_at_par(offer.original_amount_a as int, fill_amount_b as int);
}

/// Where what is left of the two legs is in exactly the original
/// ratio, as it is in a new offer, a fill of all that is left of the B leg is
/// never refused for its amount, and once accepted it leaves both legs at
/// zero and the offer terminal.
pub proof fn filling_the_rest_empties_the_offer(
    pool: PoolView,
    offer: Offer,
    taker: Pubkey,
    now: i64,
)
    requires
        offer.original_amount_a * offer.amount_b == offer.amount_a * offer.original_amount_b,
        offer.original_amount_b > 0,
        offer.amount_b > 0,
    ensures
        accept_refusal(pool, offer, taker, now, offer.amount_b) != Some(
            OtcError::InvalidFillAmount,
        ),
        accept_refusal(pool, offer, taker, now, offer.amount_b) is None ==> {
            &&& offer_after_fill(offer, offer.amount_b).amount_a == 0
            &&& offer_after_fill(offer, offer.amount_b).amount_b == 0
            &&& offer_after_fill(offer, offer.amount_b).fulfilled
        },
{
    lemma_take_of_the_rest(
        offer.original_amount_a as int,
        offer.original_amount_b as int,
        offer.amount_a as int,
        offer.amount_b as int,
    );
}

/// The maker of a live offer can cancel it at the very
/// moment of expiration; one second later the cancellation is refused as
/// expired, and from that moment the offer can be closed instead.
pub proof fn cancellation_window(pool: PoolView, offer: Offer)
    requires
        !offer.fulfilled,
        fee_of(offer.amount_a as int, pool.fee_bps as int) <= offer.amount_a,
        offer.expiration_ts < i64::MAX,
    ensures
        cancel_refusal(pool, offer, offer.maker, offer.expiration_ts) is None,
        cancel_refusal(pool, offer, offer.maker, (offer.expiration_ts + 1) as i64) == Some(
            OtcError::OfferExpired,
        ),
        close_refusal(offer, offer.expiration_ts) == Some(OtcError::OfferNotExpired),
        close_refusal(offer, (offer.expiration_ts + 1) as i64) is None,
{
}

/// An offer is open to acceptance and cancellation up to and including its
/// expiration, and to closing only after it: at no moment to both.
pub proof fn expiration_separates_closing(
    pool: PoolView,
    offer: Offer,
    caller: Pubkey,
    now: i64,
    fill_amount_b: u64,
)
    ensures
        close_refusal(offer, now) is None ==> cancel_refusal(pool, offer, caller, now) is Some
            && accept_refusal(pool, offer, caller, now, fill_amount_b) is Some,
{
}

/// Every operation on a terminal offer is refused; where the
/// caller is entitled to act at all (trading is not paused, for a fill; the
/// caller is the maker, for a cancellation or an extension), the reason is
/// that the offer is already fulfilled.
pub proof fn terminal_offers_refuse_everything(
    pool: PoolView,
    offer: Offer,
    caller: Pubkey,
    now: i64,
    fill_amount_b: u64,
    new_expiration_ts: i64,
)
    requires
        offer.fulfilled,
    ensures
        accept_refusal(pool, offer, caller, now, fill_amount_b) is Some,
        cancel_refusal(pool, offer, caller, now) is Some,
        extend_refusal(pool, offer, caller, now, new_expiration_ts) is Some,
        close_refusal(offer, now) == Some(OtcError::OfferAlreadyFulfilled),
        !pool.paused ==> accept_refusal(pool, offer, caller, now, fill_amount_b) == Some(
            OtcError::OfferAlreadyFulfilled,
        ),
        caller == offer.maker ==> cancel_refusal(pool, offer, caller, now) == Some(
            OtcError::OfferAlreadyFulfilled,
        ),
        caller == offer.maker ==> extend_refusal(pool, offer, caller, now, new_expiration_ts)
            == Some(OtcError::OfferAlreadyFulfilled),
{
}

/// The authority cannot admit a partner to a full
/// list, and cannot remove somebody who is not a partner; nobody else can do
/// either.
pub proof fn partner_list_is_bounded(pool: PoolView, caller: Pubkey, partner: Pubkey)
    ensures
        pool.partners.len() >= pool.max_partners ==> add_partner_refusal(pool, caller, partner)
            is Some,
        pool.partners.len() >= pool.max_partners && caller == pool.authority
            ==> add_partner_refusal(pool, caller, partner) == Some(OtcError::PartnerLimitReached),
        !pool.is_partner(partner) ==> remove_partner_refusal(pool, caller, partner) is Some,
        !pool.is_partner(partner) && caller == pool.authority ==> remove_partner_refusal(
            pool,
            caller,
            partner,
        ) == Some(OtcError::PartnerNotFound),
{
}

/// The partner list stands for a set. Admitting somebody adds exactly them;
/// removing a partner from a list without repetitions leaves exactly the
/// others, one entry fewer.
pub proof fn partner_list_acts_as_a_set(pool: PoolView, partner: Pubkey, other: Pubkey)
    requires
        pool.partners.no_duplicates(),
    ensures
        pool.partners.push(partner).contains(other) <==> other == partner || pool.is_partner(
            other,
        ),
        without_first(pool.partners, partner).contains(other) <==> other != partner
            && pool.is_partner(other),
        pool.is_partner(partner) ==> without_first(pool.partners, partner).len()
            == pool.partners.len() - 1,
        !pool.is_partner(partner) ==> without_first(pool.partners, partner) == pool.partners,
{
    let added = pool.partners.push(partner);
    if added.contains(other) {
        let k = choose|k: int| 0 <= k < added.len() && added[k] == other;
        if k < pool.partners.len() {
            assert(pool.partners[k] == other);
        }
    }
    if other == partner {
        assert(added[pool.partners.len() as int] == other);
    }
    if pool.is_partner(other) {
        let k = choose|k: int| 0 <= k < pool.partners.len() && pool.partners[k] == other;
        assert(added[k] == other);
    }
    lemma_without_first_of_distinct(pool.partners, partner);
    pool.partners.index_of_first_ensures(partner);
    if pool.is_partner(partner) {
        lemma_without_first_keeps_others(pool.partners, partner);
    }
}

/// The pair list never outgrows the record. Nobody can add a pair to a full
/// list; where the authority asks, the mints are whitelisted and the pair is
/// new, the reason is the limit. An accepted pair leaves the list within it.
pub proof fn pair_list_is_bounded(pool: PoolView, caller: Pubkey, mint_a: Pubkey, mint_b: Pubkey)
    ensures
        pool.supported_pairs.len() >= Pool::MAX_PAIRS ==> add_pair_refusal(
            pool,
            caller,
            mint_a,
            mint_b,
        ) is Some,
        pool.supported_pairs.len() >= Pool::MAX_PAIRS && caller == pool.authority
            && pool.is_whitelisted(mint_a) && pool.is_whitelisted(mint_b) && !pool.supports_pair(
            mint_a,
            mint_b,
        ) ==> add_pair_refusal(pool, caller, mint_a, mint_b) == Some(OtcError::PairLimitReached),
        add_pair_refusal(pool, caller, mint_a, mint_b) is None ==> pool.supported_pairs.push(
            Pair { mint_a, mint_b },
        ).len() <= Pool::MAX_PAIRS,
{
}

/// A pair that names a mint which is not whitelisted cannot be added; for
/// the authority the reason is the mint.
pub proof fn pairs_need_whitelisted_mints(
    pool: PoolView,
    caller: Pubkey,
    mint_a: Pubkey,
    mint_b: Pubkey,
)
    requires
        !pool.is_whitelisted(mint_a) || !pool.is_whitelisted(mint_b),
    ensures
        add_pair_refusal(pool, caller, mint_a, mint_b) is Some,
        caller == pool.authority ==> add_pair_refusal(pool, caller, mint_a, mint_b) == Some(
            OtcError::MintNotWhitelisted,
        ),
{
}

/// While the pool is paused, every swap, every new offer and every fill is
/// refused for that reason, whatever else holds.
pub proof fn pause_stops_trading(
    pool: PoolView,
    offer: Offer,
    party: Pubkey,
    counterparty: Pubkey,
    mint_a: Pubkey,
    mint_b: Pubkey,
    now: i64,
    amount_a: u64,
    amount_b: u64,
    expiration_ts: i64,
)
    requires
        pool.paused,
    ensures
        swap_refusal(pool, party, counterparty, mint_a, mint_b, amount_a, amount_b) == Some(
            OtcError::PoolIsPaused,
        ),
        create_refusal(pool, party, mint_a, mint_b, now, amount_a, amount_b, expiration_ts)
            == Some(OtcError::PoolIsPaused),
        accept_refusal(pool, offer, party, now, amount_b) == Some(OtcError::PoolIsPaused),
{
}

/// With a fee rate of at most 100%, no operation on a well-formed offer is
/// ever refused for arithmetic.
pub proof fn sane_fee_rate_never_overflows(
    pool: PoolView,
    offer: Offer,
    caller: Pubkey,
    now: i64,
    fill_amount_b: u64,
)
    requires
        pool.fee_bps <= 10_000,
        offer.wf(),
    ensures
        accept_refusal(pool, offer, caller, now, fill_amount_b) != Some(
            OtcError::ArithmeticOverflow,
        ),
        cancel_refusal(pool, offer, caller, now) != Some(OtcError::ArithmeticOverflow),
{
    lemma_fee_within_amount(offer.amount_a as int, pool.fee_bps as int);
    if 0 < fill_amount_b <= offer.amount_b {
        lemma_take_within_original(
            offer.original_amount_a as int,
            offer.original_amount_b as int,
            fill_amount_b as int,
        );
        let take_a = take_of(
            offer.original_amount_a as int,
            offer.original_amount_b as int,
            fill_amount_b as int,
        );
        lemma_fee_within_amount(take_a, pool.fee_bps as int);
    }
}

/// A new offer is well-formed and live, with both legs whole.
pub proof fn new_offers_are_sound(
    maker: Pubkey,
    mint_a: Pubkey,
    mint_b: Pubkey,
    amount_a: u64,
    amount_b: u64,
    expiration_ts: i64,
    bump: u8,
)
    ensures
        new_offer(maker, mint_a, mint_b, amount_a, amount_b, expiration_ts, bump).wf(),
        new_offer(maker, mint_a, mint_b, amount_a, amount_b, expiration_ts, bump).is_live(),
        new_offer(maker, mint_a, mint_b, amount_a, amount_b, expiration_ts, bump).is_backed(),
{
}

} // verus!
