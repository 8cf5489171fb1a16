//! The notification each successful operation hands back for observers.

use vstd::prelude::*;
use crate::keys::Pubkey;

verus! {

/// A pool was set up.
#[derive(Clone, Copy, Debug, PartialEq, Eq)]
pub struct PoolInitialized {
    pub authority: Pubkey,
    pub max_partners: u8,
    pub fee_bps: u16,
    pub treasury: Pubkey,
    pub min_swap_amount: u64,
    pub max_expiration_secs: i64,
}

/// The pool's authority passed from `previous` to `new`.
#[derive(Clone, Copy, Debug, PartialEq, Eq)]
pub struct AuthorityTransferred {
    pub previous: Pubkey,
    pub new: Pubkey,
}

/// The fee destination changed from `previous` to `new`.
#[derive(Clone, Copy, Debug, PartialEq, Eq)]
pub struct TreasuryUpdated {
    pub previous: Pubkey,
    pub new: Pubkey,
}

/// A mint was whitelisted.
#[derive(Clone, Copy, Debug, PartialEq, Eq)]
pub struct MintWhitelisted {
    pub mint: Pubkey,
}

/// A mint left the whitelist.
#[derive(Clone, Copy, Debug, PartialEq, Eq)]
pub struct MintRemoved {
    pub mint: Pubkey,
}

/// An offer was closed after its expiration.
#[derive(Clone, Copy, Debug, PartialEq, Eq)]
pub struct OfferExpired {
    pub maker: Pubkey,
    pub expiration_ts: i64,
}

/// A partner was admitted.
#[derive(Clone, Copy, Debug, PartialEq, Eq)]
pub struct PartnerAdded {
    pub partner: Pubkey,
}

/// A partner was removed.
#[derive(Clone, Copy, Debug, PartialEq, Eq)]
pub struct PartnerRemoved {
    pub partner: Pubkey,
}

/// An ordered pair became tradable.
#[derive(Clone, Copy, Debug, PartialEq, Eq)]
pub struct SupportedPairAdded {
    pub mint_a: Pubkey,
    pub mint_b: Pubkey,
}

/// An ordered pair stopped being tradable.
#[derive(Clone, Copy, Debug, PartialEq, Eq)]
pub struct SupportedPairRemoved {
    pub mint_a: Pubkey,
    pub mint_b: Pubkey,
}

/// Trading was paused.
#[derive(Clone, Copy, Debug, PartialEq, Eq)]
pub struct PoolPaused {
    pub admin: Pubkey,
    pub timestamp: i64,
}

/// Trading was resumed.
#[derive(Clone, Copy, Debug, PartialEq, Eq)]
pub struct PoolResumed {
    pub admin: Pubkey,
    pub timestamp: i64,
}

/// Two partners swapped directly. A direct swap is never partial, so the
/// remaining amounts repeat the filled ones.
#[derive(Clone, Copy, Debug, PartialEq, Eq)]
pub struct SwapDirectExecuted {
    pub party_a: Pubkey,
    pub party_b: Pubkey,
    pub mint_a: Pubkey,
    pub mint_b: Pubkey,
    pub filled_amount_a: u64,
    pub filled_amount_b: u64,
    pub remaining_amount_a: u64,
    pub remaining_amount_b: u64,
}

/// An offer was posted and its A leg locked in escrow.
#[derive(Clone, Copy, Debug, PartialEq, Eq)]
pub struct OfferCreated {
    pub maker: Pubkey,
    pub mint_a: Pubkey,
    pub mint_b: Pubkey,
    pub amount_a: u64,
    pub amount_b: u64,
    pub expiration_ts: i64,
}

/// An offer was withdrawn by its maker.
#[derive(Clone, Copy, Debug, PartialEq, Eq)]
pub struct OfferCancelled {
    pub maker: Pubkey,
}

/// An offer was filled, in part or in full.
#[derive(Clone, Copy, Debug, PartialEq, Eq)]
pub struct OfferExecuted {
    pub maker: Pubkey,
    pub taker: Pubkey,
    pub mint_a: Pubkey,
    pub mint_b: Pubkey,
    pub filled_amount_a: u64,
    pub filled_amount_b: u64,
    pub remaining_amount_a: u64,
    pub remaining_amount_b: u64,
}

/// An offer's expiration moved forward.
#[derive(Clone, Copy, Debug, PartialEq, Eq)]
pub struct OfferExtended {
    pub maker: Pubkey,
    pub new_expiration_ts: i64,
}

} // verus!
