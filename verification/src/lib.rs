//! Escrow-backed, permissioned over-the-counter token swaps: the pool's
//! governance state and the offer state machine, with every operation stated
//! as a contract and proved.

pub mod accounts;
pub mod error;
pub mod events;
pub mod governance;
pub mod keys;
pub mod laws;
pub mod lifecycle;
pub mod listing;
pub mod offers;
pub mod policy;
pub mod pricing;
pub mod settlement;
pub mod state;
pub mod swap;

pub use accounts::{
    AcceptOffer, CancelOffer, CloseExpiredOffer, CreateOffer, ExtendOffer, InitializePool,
    ModifyPartner, ModifyPoolMints, ModifyPoolState, ModifySupportedPair, SwapDirect,
    TransferAuthority,
};
pub use error::OtcError;
pub use events::{
    AuthorityTransferred, MintRemoved, MintWhitelisted, OfferCancelled, OfferCreated,
    OfferExecuted, OfferExpired, OfferExtended, PartnerAdded, PartnerRemoved, PoolInitialized,
    PoolPaused, PoolResumed, SupportedPairAdded, SupportedPairRemoved, SwapDirectExecuted,
    TreasuryUpdated,
};
pub use governance::{
    add_partner, add_supported_pair, add_whitelisted_mint, initialize_pool, pause_pool,
    remove_partner, remove_supported_pair, remove_whitelisted_mint, resume_pool,
    transfer_authority, update_treasury,
};
pub use keys::Pubkey;
pub use offers::{accept_offer, cancel_offer, close_expired_offer, create_offer, extend_offer};
pub use settlement::{Endpoint, Signatory, Transfer};
pub use state::{Clock, Offer, Pair, Pool, PoolView};
pub use swap::swap_direct;
