//! The reasons an operation is refused.

use vstd::prelude::*;

verus! {

/// Why an operation was refused. A refused operation changes nothing.
#[derive(Clone, Copy, Debug, PartialEq, Eq, Structural)]
pub enum OtcError {
    /// The caller is not the pool's authority, or not the offer's maker.
    Unauthorized,
    /// The partner list already holds `max_partners` entries.
    PartnerLimitReached,
    /// The identity is already a partner.
    PartnerAlreadyExists,
    /// The identity is not a partner.
    PartnerNotFound,
    /// The ordered pair is already supported.
    PairAlreadyExists,
    /// The ordered pair is not among the supported pairs.
    PairNotFound,
    /// The ordered pair is not supported for trading.
    PairNotSupported,
    /// Trading is paused.
    PoolIsPaused,
    /// A trading party is not a partner.
    UnauthorizedPartner,
    /// The offer is already terminal.
    OfferAlreadyFulfilled,
    /// The offer's expiration has passed.
    OfferExpired,
    /// The offer's expiration has not passed yet.
    OfferNotExpired,
    /// A leg is smaller than the pool's minimum swap amount.
    SwapBelowMinimum,
    /// The fill is zero, exceeds what is left on the B leg, or would take
    /// more of the A leg than is left in escrow.
    InvalidFillAmount,
    /// The mint is already whitelisted.
    MintAlreadyWhitelisted,
    /// The mint is not whitelisted.
    MintNotWhitelisted,
    /// The treasury account is not the pool's treasury. No operation of this
    /// library returns it: which account collects the fees is checked where
    /// the accounts are read.
    InvalidTreasuryAccount,
    /// The new expiration is not strictly later than the current one.
    InvalidExtension,
    /// The expiration lies further ahead than the pool allows.
    ExpirationTooLong,
    /// The price ratio is undefined, or the fee exceeds the amount it is
    /// charged on.
    ArithmeticOverflow,
    /// The pair list already holds as many pairs as the pool record has room
    /// for.
    PairLimitReached,
}

impl OtcError {
    /// The text shown for this error.
    pub open spec fn message_text(self) -> Seq<char> {
        match self {
            OtcError::Unauthorized => "Not authorized"@,
            OtcError::PartnerLimitReached => "Partner limit reached"@,
            OtcError::PartnerAlreadyExists => "Partner already exists"@,
            OtcError::PartnerNotFound => "Partner not found"@,
            OtcError::PairAlreadyExists => "Pair already exists"@,
            OtcError::PairNotFound => "Pair not found"@,
            OtcError::PairNotSupported => "Pair not supported"@,
            OtcError::PoolIsPaused => "Pool is paused"@,
            OtcError::UnauthorizedPartner => "Caller is not whitelisted"@,
            OtcError::OfferAlreadyFulfilled => "Offer already fulfilled"@,
            OtcError::OfferExpired => "Offer expired"@,
            OtcError::OfferNotExpired => "Offer not yet expired"@,
            OtcError::SwapBelowMinimum => "Swap amount below minimum"@,
            OtcError::InvalidFillAmount => "Invalid fill amount"@,
            OtcError::MintAlreadyWhitelisted => "Mint already whitelisted"@,
            OtcError::MintNotWhitelisted => "Mint not whitelisted"@,
            OtcError::InvalidTreasuryAccount => "Invalid treasury account"@,
            OtcError::InvalidExtension => "Invalid extension"@,
            OtcError::ExpirationTooLong => "Expiration too long"@,
            OtcError::ArithmeticOverflow => "Arithmetic overflow"@,
            OtcError::PairLimitReached => "Pair limit reached"@,
        }
    }

    /// The text shown for this error.
    pub fn message(&self) -> (text: &'static str)
        ensures
            text@ == self.message_text(),
    {
        match self {
            OtcError::Unauthorized => "Not authorized",
            OtcError::PartnerLimitReached => "Partner limit reached",
            OtcError::PartnerAlreadyExists => "Partner already exists",
            OtcError::PartnerNotFound => "Partner not found",
            OtcError::PairAlreadyExists => "Pair already exists",
            OtcError::PairNotFound => "Pair not found",
            OtcError::PairNotSupported => "Pair not supported",
            OtcError::PoolIsPaused => "Pool is paused",
            OtcError::UnauthorizedPartner => "Caller is not whitelisted",
            OtcError::OfferAlreadyFulfilled => "Offer already fulfilled",
            OtcError::OfferExpired => "Offer expired",
            OtcError::OfferNotExpired => "Offer not yet expired",
            OtcError::SwapBelowMinimum => "Swap amount below minimum",
            OtcError::InvalidFillAmount => "Invalid fill amount",
            OtcError::MintAlreadyWhitelisted => "Mint already whitelisted",
            OtcError::MintNotWhitelisted => "Mint not whitelisted",
            OtcError::InvalidTreasuryAccount => "Invalid treasury account",
            OtcError::InvalidExtension => "Invalid extension",
            OtcError::ExpirationTooLong => "Expiration too long",
            OtcError::ArithmeticOverflow => "Arithmetic overflow",
            OtcError::PairLimitReached => "Pair limit reached",
        }
    }
}

} // verus!
