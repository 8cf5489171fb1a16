//! What an operation asks of the token ledger: the transfers to carry out,
//! in order, once the operation has been accepted.

use vstd::prelude::*;

verus! {

/// A token account, named by the part it plays in an operation.
#[derive(Clone, Copy, Debug, PartialEq, Eq, Structural)]
pub enum Endpoint {
    /// Where the first party of a direct swap pays from.
    PartyASource,
    /// Where the first party of a direct swap is paid.
    PartyADestination,
    /// Where the second party of a direct swap pays from.
    PartyBSource,
    /// Where the second party of a direct swap is paid.
    PartyBDestination,
    /// Where the maker funds an offer from.
    MakerSource,
    /// Where the maker is paid or refunded.
    MakerDestination,
    /// Where the taker pays from.
    TakerSource,
    /// Where the taker is paid.
    TakerDestination,
    /// The offer's escrow.
    Escrow,
    /// Where fees are collected.
    Treasury,
}

/// Who authorizes a transfer.
#[derive(Clone, Copy, Debug, PartialEq, Eq, Structural)]
pub enum Signatory {
    /// The first party of a direct swap.
    PartyA,
    /// The second party of a direct swap.
    PartyB,
    /// The offer's maker.
    Maker,
    /// The offer's taker.
    Taker,
    /// The offer's own signing capability, which no person holds.
    Offer,
}

/// One movement of tokens.
#[derive(Clone, Copy, Debug, PartialEq, Eq, Structural)]
pub struct Transfer {
    pub source: Endpoint,
    pub destination: Endpoint,
    pub authority: Signatory,
    pub amount: u64,
}

/// What `transfers` take out of the escrow, minus what they put in.
pub open spec fn escrow_outflow(transfers: Seq<Transfer>) -> int
    decreases transfers.len(),
{
    if transfers.len() == 0 {
        0
    } else {
        let t = transfers.last();
        let rest = escrow_outflow(transfers.drop_last());
        if t.source == Endpoint::Escrow && t.destination != Endpoint::Escrow {
            rest + t.amount
        } else if t.source != Endpoint::Escrow && t.destination == Endpoint::Escrow {
            rest - t.amount
        } else {
            rest
        }
    }
}

/// Every transfer out of the escrow is authorized by the offer's own
/// capability, and that capability authorizes nothing else.
pub open spec fn escrow_guarded(transfers: Seq<Transfer>) -> bool {
    forall|i: int|
        0 <= i < transfers.len() ==> ((#[trigger] transfers[i]).source == Endpoint::Escrow
            <==> transfers[i].authority == Signatory::Offer)
}

} // verus!
