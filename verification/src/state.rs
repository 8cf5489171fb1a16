//! The two persistent records: the pool's governance state and an offer.

use vstd::prelude::*;
use crate::keys::Pubkey;

verus! {

/// A directional trading pair: `(x, y)` and `(y, x)` are different pairs.
#[derive(Clone, Copy, Debug, PartialEq, Eq)]
pub struct Pair {
    pub mint_a: Pubkey,
    pub mint_b: Pubkey,
}

impl Pair {
    /// Bytes one pair takes in the persisted pool record.
    pub const LEN: usize = 32 + 32;
}

/// The governance record: who may trade, what may be traded, and on which
/// terms.
#[derive(Clone, Debug, PartialEq, Eq)]
pub struct Pool {
    /// The one identity that may change this record.
    pub authority: Pubkey,
    /// Upper bound on the number of partners.
    pub max_partners: u8,
    /// The identities admitted to trade.
    pub partners: Vec<Pubkey>,
    /// The mints that may appear in a pair.
    pub whitelisted_mints: Vec<Pubkey>,
    /// The ordered pairs that may be traded.
    pub supported_pairs: Vec<Pair>,
    /// While set, swaps and the creation and acceptance of offers are refused.
    pub paused: bool,
    /// Fee rate in basis points, charged on the A leg of every escrow payout.
    pub fee_bps: u16,
    /// Where fees go.
    pub treasury: Pubkey,
    /// Lower bound on both legs of every swap and offer.
    pub min_swap_amount: u64,
    /// Longest allowed offer lifetime, in seconds from creation or extension.
    pub max_expiration_secs: i64,
}

impl Pool {
    /// Most partners the persisted record has room for.
    pub const MAX_PARTNERS: usize = 255;

    /// Most whitelisted mints the persisted record has room for.
    pub const MAX_MINTS: usize = 10;

    /// Most supported pairs the persisted record has room for; a pair beyond
    /// these is refused.
    pub const MAX_PAIRS: usize = 10;

    /// Bytes of the persisted record at full capacity.
    pub const LEN: usize = 8 + 32 + 1 + 4 + 32 * Pool::MAX_PARTNERS + 4 + 32 * Pool::MAX_MINTS + 4
        + Pair::LEN * Pool::MAX_PAIRS + 1 + 2 + 32 + 8 + 8;
}

/// The pool as a mathematical value.
pub struct PoolView {
    pub authority: Pubkey,
    pub max_partners: u8,
    pub partners: Seq<Pubkey>,
    pub whitelisted_mints: Seq<Pubkey>,
    pub supported_pairs: Seq<Pair>,
    pub paused: bool,
    pub fee_bps: u16,
    pub treasury: Pubkey,
    pub min_swap_amount: u64,
    pub max_expiration_secs: i64,
}

impl View for Pool {
    type V = PoolView;

    open spec fn view(&self) -> PoolView {
        PoolView {
            authority: self.authority,
            max_partners: self.max_partners,
            partners: self.partners@,
            whitelisted_mints: self.whitelisted_mints@,
            supported_pairs: self.supported_pairs@,
            paused: self.paused,
            fee_bps: self.fee_bps,
            treasury: self.treasury,
            min_swap_amount: self.min_swap_amount,
            max_expiration_secs: self.max_expiration_secs,
        }
    }
}

impl PoolView {
    /// `who` is admitted to trade.
    pub open spec fn is_partner(self, who: Pubkey) -> bool {
        self.partners.contains(who)
    }

    /// `mint` may appear in a pair.
    pub open spec fn is_whitelisted(self, mint: Pubkey) -> bool {
        self.whitelisted_mints.contains(mint)
    }

    /// The ordered pair `(mint_a, mint_b)` may be traded.
    pub open spec fn supports_pair(self, mint_a: Pubkey, mint_b: Pubkey) -> bool {
        self.supported_pairs.contains(Pair { mint_a, mint_b })
    }

    /// The partner list respects its bound and names nobody twice; the pair
    /// list fits the room the record has for it and lists no ordered pair
    /// twice.
    pub open spec fn wf(self) -> bool {
        &&& self.partners.len() <= self.max_partners
        &&& self.partners.no_duplicates()
        &&& self.supported_pairs.len() <= Pool::MAX_PAIRS
        &&& self.supported_pairs.no_duplicates()
    }
}

/// The first position of the ordered pair `(mint_a, mint_b)` in `pairs`, by
/// linear search.
pub fn position_of_pair(pairs: &Vec<Pair>, mint_a: &Pubkey, mint_b: &Pubkey) -> (found: Option<
    usize,
>)
    ensures
        match found {
            Some(i) => i < pairs.len() && pairs@[i as int] == (Pair {
                mint_a: *mint_a,
                mint_b: *mint_b,
            }) && pairs@.index_of_first(Pair { mint_a: *mint_a, mint_b: *mint_b }) == Some(
                i as int,
            ),
            None => pairs@.index_of_first(Pair { mint_a: *mint_a, mint_b: *mint_b }) == None::<
                int,
            >,
        },
        found.is_some() == pairs@.contains(Pair { mint_a: *mint_a, mint_b: *mint_b }),
{
    let mut i: usize = 0;
    while i < pairs.len()
        invariant
            i <= pairs.len(),
            forall|j: int| 0 <= j < i ==> pairs@[j] != (Pair { mint_a: *mint_a, mint_b: *mint_b }),
        decreases pairs.len() - i,
    {
        if pairs[i].mint_a == *mint_a && pairs[i].mint_b == *mint_b {
            proof {
                pairs@.index_of_first_ensures(Pair { mint_a: *mint_a, mint_b: *mint_b });
            }
            return Some(i);
        }
        i += 1;
    }
    proof {
        pairs@.index_of_first_ensures(Pair { mint_a: *mint_a, mint_b: *mint_b });
    }
    None
}

/// A standing offer to trade `original_amount_a` of `mint_a` for
/// `original_amount_b` of `mint_b`, fillable in parts at that fixed ratio.
#[derive(Clone, Copy, Debug, PartialEq, Eq)]
pub struct Offer {
    /// Who made the offer.
    pub maker: Pubkey,
    /// The mint the maker gives, held in escrow.
    pub mint_a: Pubkey,
    /// The mint the maker asks for.
    pub mint_b: Pubkey,
    /// The A leg at creation; with `original_amount_b` it fixes the price.
    pub original_amount_a: u64,
    /// The B leg at creation.
    pub original_amount_b: u64,
    /// What is left of the A leg; the escrow holds exactly this much.
    pub amount_a: u64,
    /// What is left to be filled of the B leg.
    pub amount_b: u64,
    /// The last moment at which the offer can be accepted or cancelled.
    pub expiration_ts: i64,
    /// Set once the offer is filled, cancelled or closed; never cleared.
    pub fulfilled: bool,
    /// Seed byte of the offer's own signing capability.
    pub bump: u8,
}

impl Offer {
    /// Bytes of the persisted record.
    pub const LEN: usize = 8 + 32 + 32 + 32 + 8 + 8 + 8 + 8 + 8 + 1 + 1;

    /// Neither leg holds more than it started with.
    pub open spec fn wf(self) -> bool {
        &&& self.amount_a <= self.original_amount_a
        &&& self.amount_b <= self.original_amount_b
    }

    /// The offer can still be filled, cancelled, extended or closed.
    pub open spec fn is_live(self) -> bool {
        !self.fulfilled
    }

    /// What is left in escrow covers what is left to fill at the original
    /// price: `amount_a / amount_b >= original_amount_a / original_amount_b`,
    /// stated without division.
    pub open spec fn is_backed(self) -> bool {
        self.original_amount_a * self.amount_b <= self.amount_a * self.original_amount_b
    }

    /// This offer made terminal, with everything else as it is.
    pub open spec fn closed(self) -> Offer {
        Offer { fulfilled: true, ..self }
    }

    /// This offer with its expiration moved to `expiration_ts`.
    pub open spec fn extended_to(self, expiration_ts: i64) -> Offer {
        Offer { expiration_ts, ..self }
    }

    /// `later` is this offer at a later point of its life: parties, mints and
    /// price are the same, neither leg has grown, the expiration has not
    /// moved back, and a terminal offer has stayed terminal.
    pub open spec fn evolves_to(self, later: Offer) -> bool {
        &&& later.maker == self.maker
        &&& later.mint_a == self.mint_a
        &&& later.mint_b == self.mint_b
        &&& later.original_amount_a == self.original_amount_a
        &&& later.original_amount_b == self.original_amount_b
        &&& later.bump == self.bump
        &&& later.amount_a <= self.amount_a
        &&& later.amount_b <= self.amount_b
        &&& later.expiration_ts >= self.expiration_ts
        &&& self.fulfilled ==> later.fulfilled
    }
}

/// A reading of the ledger's clock.
#[derive(Clone, Copy, Debug, PartialEq, Eq)]
pub struct Clock {
    /// Seconds since the Unix epoch.
    pub unix_timestamp: i64,
}

} // verus!
