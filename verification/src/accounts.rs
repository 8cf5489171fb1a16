//! What each operation is handed: the records it works on and the identity
//! of whoever calls it.

use vstd::prelude::*;
use crate::keys::Pubkey;
use crate::state::{Clock, Offer, Pool};

verus! {

/// For `initialize_pool`: the fresh pool record and its first authority.
#[derive(Clone, Debug, PartialEq, Eq)]
pub struct InitializePool {
    pub pool: Pool,
    pub authority: Pubkey,
}

/// For `transfer_authority` and `update_treasury`.
#[derive(Clone, Debug, PartialEq, Eq)]
pub struct TransferAuthority {
    pub pool: Pool,
    /// The caller, who must be the pool's authority.
    pub authority: Pubkey,
}

/// For `add_whitelisted_mint` and `remove_whitelisted_mint`.
#[derive(Clone, Debug, PartialEq, Eq)]
pub struct ModifyPoolMints {
    pub pool: Pool,
    /// The caller, who must be the pool's authority.
    pub authority: Pubkey,
}

/// For `add_partner` and `remove_partner`.
#[derive(Clone, Debug, PartialEq, Eq)]
pub struct ModifyPartner {
    pub pool: Pool,
    /// The caller, who must be the pool's authority.
    pub authority: Pubkey,
}

/// For `add_supported_pair` and `remove_supported_pair`.
#[derive(Clone, Debug, PartialEq, Eq)]
pub struct ModifySupportedPair {
    pub pool: Pool,
    /// The caller, who must be the pool's authority.
    pub authority: Pubkey,
}

/// For `pause_pool` and `resume_pool`.
#[derive(Clone, Debug, PartialEq, Eq)]
pub struct ModifyPoolState {
    pub pool: Pool,
    /// The caller, who must be the pool's authority.
    pub authority: Pubkey,
    pub clock: Clock,
}

/// For `swap_direct`.
#[derive(Clone, Debug, PartialEq, Eq)]
pub struct SwapDirect {
    pub pool: Pool,
    pub party_a: Pubkey,
    pub party_b: Pubkey,
    /// The mint of the account party A pays from.
    pub mint_a: Pubkey,
    /// The mint of the account party B pays from.
    pub mint_b: Pubkey,
}

/// For `create_offer`.
#[derive(Clone, Debug, PartialEq, Eq)]
pub struct CreateOffer {
    pub pool: Pool,
    pub maker: Pubkey,
    /// The fresh offer record.
    pub offer: Offer,
    pub mint_a: Pubkey,
    pub mint_b: Pubkey,
    /// Seed byte of the new offer's signing capability.
    pub bump: u8,
    pub clock: Clock,
}

/// For `cancel_offer`.
#[derive(Clone, Debug, PartialEq, Eq)]
pub struct CancelOffer {
    pub pool: Pool,
    pub offer: Offer,
    /// The caller, who must be the offer's maker.
    pub maker: Pubkey,
    pub clock: Clock,
}

/// For `accept_offer`.
#[derive(Clone, Debug, PartialEq, Eq)]
pub struct AcceptOffer {
    pub pool: Pool,
    pub offer: Offer,
    /// The caller.
    pub taker: Pubkey,
    pub clock: Clock,
}

/// For `extend_offer`.
#[derive(Clone, Debug, PartialEq, Eq)]
pub struct ExtendOffer {
    pub offer: Offer,
    /// The caller, who must be the offer's maker.
    pub maker: Pubkey,
    pub pool: Pool,
    pub clock: Clock,
}

/// For `close_expired_offer`.
#[derive(Clone, Debug, PartialEq, Eq)]
pub struct CloseExpiredOffer {
    pub pool: Pool,
    pub offer: Offer,
    pub clock: Clock,
}

} // verus!
