//! The pool and the offer as state machines: what any sequence of requests,
//! accepted or refused, can make of them.

use vstd::prelude::*;
use crate::governance::{
    add_mint_refusal, add_pair_refusal, add_partner_refusal, authority_refusal,
    remove_mint_refusal, remove_pair_refusal, remove_partner_refusal,
};
use crate::keys::Pubkey;
use crate::laws::{escrow_holds_the_a_leg, fill_conserves_escrow, fill_keeps_the_offer_sound};
use crate::listing::{lemma_push_of_distinct, lemma_without_first_of_distinct, without_first};
use crate::offers::{
    accept_refusal, cancel_refusal, close_refusal, extend_refusal, fill_transfers,
    offer_after_fill, refund_transfers,
};
use crate::pricing::{fee_of, take_of};
use crate::settlement::{escrow_outflow, Transfer};
use crate::state::{Offer, Pair, PoolView};

verus! {

/// A request to change the pool's configuration.
pub enum PoolRequest {
    TransferAuthority { new_authority: Pubkey },
    UpdateTreasury { new_treasury: Pubkey },
    AddWhitelistedMint { mint: Pubkey },
    RemoveWhitelistedMint { mint: Pubkey },
    AddPartner { partner: Pubkey },
    RemovePartner { partner: Pubkey },
    AddSupportedPair { mint_a: Pubkey, mint_b: Pubkey },
    RemoveSupportedPair { mint_a: Pubkey, mint_b: Pubkey },
    Pause,
    Resume,
}

/// The pool after `caller` has made `request`: changed as the operation says
/// where the request is accepted, and as it was where it is refused.
pub open spec fn pool_after(pool: PoolView, caller: Pubkey, request: PoolRequest) -> PoolView {
    match request {
        PoolRequest::TransferAuthority { new_authority } => {
            if authority_refusal(pool, caller) is None {
                PoolView { authority: new_authority, ..pool }
            } else {
                pool
            }
        },
        PoolRequest::UpdateTreasury { new_treasury } => {
            if authority_refusal(pool, caller) is None {
                PoolView { treasury: new_treasury, ..pool }
            } else {
                pool
            }
        },
        PoolRequest::AddWhitelistedMint { mint } => {
            if add_mint_refusal(pool, caller, mint) is None {
                PoolView { whitelisted_mints: pool.whitelisted_mints.push(mint), ..pool }
            } else {
                pool
            }
        },
        PoolRequest::RemoveWhitelistedMint { mint } => {
            if remove_mint_refusal(pool, caller, mint) is None {
                PoolView { whitelisted_mints: without_first(pool.whitelisted_mints, mint), ..pool }
            } else {
                pool
            }
        },
        PoolRequest::AddPartner { partner } => {
            if add_partner_refusal(pool, caller, partner) is None {
                PoolView { partners: pool.partners.push(partner), ..pool }
            } else {
                pool
            }
        },
        PoolRequest::RemovePartner { partner } => {
            if remove_partner_refusal(pool, caller, partner) is None {
                PoolView { partners: without_first(pool.partners, partner), ..pool }
            } else {
                pool
            }
        },
        PoolRequest::AddSupportedPair { mint_a, mint_b } => {
            if add_pair_refusal(pool, caller, mint_a, mint_b) is None {
                PoolView {
                    supported_pairs: pool.supported_pairs.push(Pair { mint_a, mint_b }),
                    ..pool
                }
            } else {
                pool
            }
        },
        PoolRequest::RemoveSupportedPair { mint_a, mint_b } => {
            if remove_pair_refusal(pool, caller, mint_a, mint_b) is None {
                PoolView {
                    supported_pairs: without_first(pool.supported_pairs, Pair { mint_a, mint_b }),
                    ..pool
                }
            } else {
                pool
            }
        },
        PoolRequest::Pause => {
            if authority_refusal(pool, caller) is None {
                PoolView { paused: true, ..pool }
            } else {
                pool
            }
        },
        PoolRequest::Resume => {
            if authority_refusal(pool, caller) is None {
                PoolView { paused: false, ..pool }
            } else {
                pool
            }
        },
    }
}

/// The pool after the requests of `history` have been made one after the
/// other, each by the caller it is paired with.
pub open spec fn pool_after_all(pool: PoolView, history: Seq<(Pubkey, PoolRequest)>) -> PoolView
    decreases history.len(),
{
    if history.len() == 0 {
        pool
    } else {
        pool_after(pool_after_all(pool, history.drop_last()), history.last().0, history.last().1)
    }
}

/// The terms of `later` are those of `earlier`: the partner bound, the fee
/// rate, the minimum amount and the longest lifetime.
pub open spec fn same_terms(earlier: PoolView, later: PoolView) -> bool {
    &&& later.max_partners == earlier.max_partners
    &&& later.fee_bps == earlier.fee_bps
    &&& later.min_swap_amount == earlier.min_swap_amount
    &&& later.max_expiration_secs == earlier.max_expiration_secs
}

/// One request keeps a well-formed pool well-formed and its terms as they
/// are, and a request of anybody but the authority changes nothing at all.
pub proof fn one_request_keeps_the_pool_sound(
    pool: PoolView,
    caller: Pubkey,
    request: PoolRequest,
)
    ensures
        pool.wf() ==> pool_after(pool, caller, request).wf(),
        same_terms(pool, pool_after(pool, caller, request)),
        caller != pool.authority ==> pool_after(pool, caller, request) == pool,
{
    if pool.wf() {
        match request {
            PoolRequest::AddPartner { partner } => {
                if add_partner_refusal(pool, caller, partner) is None {
                    lemma_push_of_distinct(pool.partners, partner);
                }
            },
            PoolRequest::RemovePartner { partner } => {
                lemma_without_first_of_distinct(pool.partners, partner);
                pool.partners.index_of_first_ensures(partner);
            },
            PoolRequest::AddSupportedPair { mint_a, mint_b } => {
                if add_pair_refusal(pool, caller, mint_a, mint_b) is None {
                    lemma_push_of_distinct(pool.supported_pairs, Pair { mint_a, mint_b });
                }
            },
            PoolRequest::RemoveSupportedPair { mint_a, mint_b } => {
                lemma_without_first_of_distinct(pool.supported_pairs, Pair { mint_a, mint_b });
                pool.supported_pairs.index_of_first_ensures(Pair { mint_a, mint_b });
            },
            _ => {},
        }
    }
}

/// Whatever is asked of a pool, by whomever and in whatever order, a
/// well-formed pool stays well-formed: its partner list never outgrows its
/// bound and never names anybody twice, and its pair list never outgrows the
/// record and never lists a pair twice. The terms it was set up with never
/// change.
pub proof fn pools_stay_sound(pool: PoolView, history: Seq<(Pubkey, PoolRequest)>)
    ensures
        pool.wf() ==> pool_after_all(pool, history).wf(),
        same_terms(pool, pool_after_all(pool, history)),
    decreases history.len(),
{
    if history.len() > 0 {
        pools_stay_sound(pool, history.drop_last());
        one_request_keeps_the_pool_sound(
            pool_after_all(pool, history.drop_last()),
            history.last().0,
            history.last().1,
        );
    }
}

/// A request made of an offer.
pub enum OfferRequest {
    Accept { taker: Pubkey, fill_amount_b: u64 },
    Cancel { caller: Pubkey },
    Extend { caller: Pubkey, new_expiration_ts: i64 },
    CloseExpired,
}

/// The moment a request is made of an offer: the pool as it is then, the
/// time, and the request.
pub struct Moment {
    pub pool: PoolView,
    pub now: i64,
    pub request: OfferRequest,
}

/// The offer after the request of `moment`: changed as the operation says
/// where the request is accepted, and as it was where it is refused.
pub open spec fn offer_after(offer: Offer, moment: Moment) -> Offer {
    match moment.request {
        OfferRequest::Accept { taker, fill_amount_b } => {
            if accept_refusal(moment.pool, offer, taker, moment.now, fill_amount_b) is None {
                offer_after_fill(offer, fill_amount_b)
            } else {
                offer
            }
        },
        OfferRequest::Cancel { caller } => {
            if cancel_refusal(moment.pool, offer, caller, moment.now) is None {
                offer.closed()
            } else {
                offer
            }
        },
        OfferRequest::Extend { caller, new_expiration_ts } => {
            if extend_refusal(moment.pool, offer, caller, moment.now, new_expiration_ts) is None {
                offer.extended_to(new_expiration_ts)
            } else {
                offer
            }
        },
        OfferRequest::CloseExpired => {
            if close_refusal(offer, moment.now) is None {
                offer.closed()
            } else {
                offer
            }
        },
    }
}

/// The offer after the requests of `history` have been made one after the
/// other.
pub open spec fn offer_after_all(offer: Offer, history: Seq<Moment>) -> Offer
    decreases history.len(),
{
    if history.len() == 0 {
        offer
    } else {
        offer_after(offer_after_all(offer, history.drop_last()), history.last())
    }
}

/// One request changes an offer only forward, keeps it well-formed and
/// backed, and changes a terminal offer not at all.
pub proof fn one_request_keeps_the_offer_sound(offer: Offer, moment: Moment)
    ensures
        offer.evolves_to(offer_after(offer, moment)),
        offer.wf() ==> offer_after(offer, moment).wf(),
        offer.is_backed() ==> offer_after(offer, moment).is_backed(),
        offer.fulfilled ==> offer_after(offer, moment) == offer,
{
    match moment.request {
        OfferRequest::Accept { taker, fill_amount_b } => {
            if accept_refusal(moment.pool, offer, taker, moment.now, fill_amount_b) is None {
                fill_keeps_the_offer_sound(moment.pool, offer, taker, moment.now, fill_amount_b);
            }
        },
        _ => {},
    }
}

/// Whatever is asked of an offer, by whomever, whenever and under whatever
/// pool, the offer only moves forward: its maker, mints and price stay, its
/// legs never grow, its expiration never moves back, and once terminal it
/// never changes again. A well-formed offer stays well-formed, and an offer
/// whose escrow covers what is left of it stays covered.
pub proof fn offers_stay_sound(offer: Offer, history: Seq<Moment>)
    ensures
        offer.evolves_to(offer_after_all(offer, history)),
        offer.wf() ==> offer_after_all(offer, history).wf(),
        offer.is_backed() ==> offer_after_all(offer, history).is_backed(),
        offer.fulfilled ==> offer_after_all(offer, history) == offer,
    decreases history.len(),
{
    if history.len() > 0 {
        offers_stay_sound(offer, history.drop_last());
        one_request_keeps_the_offer_sound(
            offer_after_all(offer, history.drop_last()),
            history.last(),
        );
    }
}

/// The transfers that the request of `moment` sets off: those of a fill or
/// of a cancellation where it is accepted, and none otherwise.
pub open spec fn transfers_of(offer: Offer, moment: Moment) -> Seq<Transfer> {
    match moment.request {
        OfferRequest::Accept { taker, fill_amount_b } => {
            if accept_refusal(moment.pool, offer, taker, moment.now, fill_amount_b) is None {
                let take_a = take_of(
                    offer.original_amount_a as int,
                    offer.original_amount_b as int,
                    fill_amount_b as int,
                );
                let fee = fee_of(take_a, moment.pool.fee_bps as int);
                fill_transfers(fill_amount_b, take_a as u64, fee as u64)
            } else {
                Seq::empty()
            }
        },
        OfferRequest::Cancel { caller } => {
            if cancel_refusal(moment.pool, offer, caller, moment.now) is None {
                let fee = fee_of(offer.amount_a as int, moment.pool.fee_bps as int);
                refund_transfers(offer.amount_a, fee as u64)
            } else {
                Seq::empty()
            }
        },
        _ => Seq::empty(),
    }
}

/// What an escrow that held `balance` holds after the requests of `history`
/// have been made of `offer` and their transfers carried out.
pub open spec fn escrow_after_all(balance: int, offer: Offer, history: Seq<Moment>) -> int
    decreases history.len(),
{
    if history.len() == 0 {
        balance
    } else {
        escrow_after_all(balance, offer, history.drop_last()) - escrow_outflow(
            transfers_of(offer_after_all(offer, history.drop_last()), history.last()),
        )
    }
}

/// The escrow backs the offer. An escrow that holds exactly what is left of
/// a live offer's A leg goes on holding exactly that, whatever is asked of
/// the offer, until the offer is cancelled, which empties it. Closing an
/// expired offer moves nothing: what is left stays in the escrow.
pub proof fn the_escrow_backs_the_offer(offer: Offer, history: Seq<Moment>)
    requires
        !offer.fulfilled,
    ensures
        ({
            let balance = escrow_after_all(offer.amount_a as int, offer, history);
            let last = offer_after_all(offer, history);
            &&& balance == last.amount_a || (last.fulfilled && balance == 0)
            &&& !last.fulfilled ==> balance == last.amount_a
        }),
    decreases history.len(),
{
    if history.len() > 0 {
        let earlier = history.drop_last();
        let before = offer_after_all(offer, earlier);
        let moment = history.last();
        the_escrow_backs_the_offer(offer, earlier);
        one_request_keeps_the_offer_sound(before, moment);
        if before.fulfilled {
            assert(transfers_of(before, moment) =~= Seq::empty());
        } else {
            match moment.request {
                OfferRequest::Accept { taker, fill_amount_b } => {
                    if accept_refusal(moment.pool, before, taker, moment.now, fill_amount_b)
                        is None {
                        fill_conserves_escrow(moment.pool, before, taker, moment.now, fill_amount_b);
                    }
                },
                OfferRequest::Cancel { caller } => {
                    if cancel_refusal(moment.pool, before, caller, moment.now) is None {
                        let fee = fee_of(before.amount_a as int, moment.pool.fee_bps as int);
                        assert(0 <= fee) by (nonlinear_arith)
                            requires
                                fee == (before.amount_a as int) * (moment.pool.fee_bps as int)
                                    / 10_000,
                        ;
                        escrow_holds_the_a_leg(before.amount_a, fee as u64);
                    }
                },
                _ => {},
            }
        }
    }
}

} // verus!
