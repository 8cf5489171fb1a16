//! Governance: the pool's single authority sets it up and changes its
//! configuration. Whoever else calls is refused, and a refused call changes
//! nothing.

use vstd::prelude::*;
use crate::accounts::{
    InitializePool, ModifyPartner, ModifyPoolMints, ModifyPoolState, ModifySupportedPair,
    TransferAuthority,
};
use crate::error::OtcError;
use crate::events::{
    AuthorityTransferred, MintRemoved, MintWhitelisted, PartnerAdded, PartnerRemoved,
    PoolInitialized, PoolPaused, PoolResumed, SupportedPairAdded, SupportedPairRemoved,
    TreasuryUpdated,
};
use crate::keys::{contains_key, position_of_key, Pubkey};
use crate::lifecycle::{pool_after, PoolRequest};
use crate::listing::{lemma_push_of_distinct, lemma_without_first_of_distinct, without_first};
use crate::state::{position_of_pair, Pair, Pool, PoolView};

verus! {

/// A pool as `initialize_pool` leaves it: nobody admitted, no pair supported,
/// trading open.
pub open spec fn fresh_pool(
    authority: Pubkey,
    max_partners: u8,
    fee_bps: u16,
    treasury: Pubkey,
    min_swap_amount: u64,
    max_expiration_secs: i64,
    whitelisted_mints: Seq<Pubkey>,
) -> PoolView {
    PoolView {
        authority,
        max_partners,
        partners: Seq::empty(),
        whitelisted_mints,
        supported_pairs: Seq::empty(),
        paused: false,
        fee_bps,
        treasury,
        min_swap_amount,
        max_expiration_secs,
    }
}

/// Sets up the fresh record `ctx.pool` under the authority `ctx.authority`.
/// Whatever the record held before is overwritten; this always succeeds.
pub fn initialize_pool(
    ctx: &mut InitializePool,
    max_partners: u8,
    fee_bps: u16,
    treasury: Pubkey,
    min_swap_amount: u64,
    max_expiration_secs: i64,
    initial_whitelisted_mints: Vec<Pubkey>,
) -> (r: Result<PoolInitialized, OtcError>)
    ensures
        final(ctx).authority == old(ctx).authority,
        final(ctx).pool@ == fresh_pool(
            old(ctx).authority,
            max_partners,
            fee_bps,
            treasury,
            min_swap_amount,
            max_expiration_secs,
            initial_whitelisted_mints@,
        ),
        final(ctx).pool@.wf(),
        r == Ok::<PoolInitialized, OtcError>(
            PoolInitialized {
                authority: old(ctx).authority,
                max_partners,
                fee_bps,
                treasury,
                min_swap_amount,
                max_expiration_secs,
            },
        ),
{
    ctx.pool.authority = ctx.authority;
    ctx.pool.max_partners = max_partners;
    ctx.pool.partners = Vec::new();
    ctx.pool.whitelisted_mints = initial_whitelisted_mints;
    ctx.pool.supported_pairs = Vec::new();
    ctx.pool.paused = false;
    ctx.pool.fee_bps = fee_bps;
    ctx.pool.treasury = treasury;
    ctx.pool.min_swap_amount = min_swap_amount;
    ctx.pool.max_expiration_secs = max_expiration_secs;
    Ok(
        PoolInitialized {
            authority: ctx.authority,
            max_partners,
            fee_bps,
            treasury,
            min_swap_amount,
            max_expiration_secs,
        },
    )
}

/// Why `caller` may not change the pool's configuration, if they may not.
pub open spec fn authority_refusal(pool: PoolView, caller: Pubkey) -> Option<OtcError> {
    if pool.authority != caller {
        Some(OtcError::Unauthorized)
    } else {
        None
    }
}

/// Hands the pool over to `new_authority`. From then on the caller of this
/// call has no say unless they are the new authority too.
pub fn transfer_authority(ctx: &mut TransferAuthority, new_authority: Pubkey) -> (r: Result<
    AuthorityTransferred,
    OtcError,
>)
    ensures
        match authority_refusal(old(ctx).pool@, old(ctx).authority) {
            Some(e) => r == Err::<AuthorityTransferred, OtcError>(e) && *final(ctx) == *old(ctx),
            None => {
                &&& final(ctx).pool@ == (PoolView { authority: new_authority, ..old(ctx).pool@ })
                &&& r == Ok::<AuthorityTransferred, OtcError>(
                    AuthorityTransferred { previous: old(ctx).pool.authority, new: new_authority },
                )
            },
        },
        final(ctx).authority == old(ctx).authority,
        final(ctx).pool@ == pool_after(
            old(ctx).pool@,
            old(ctx).authority,
            PoolRequest::TransferAuthority { new_authority },
        ),
        old(ctx).pool@.wf() ==> final(ctx).pool@.wf(),
{
    if ctx.pool.authority != ctx.authority {
        return Err(OtcError::Unauthorized);
    }
    let previous = ctx.pool.authority;
    ctx.pool.authority = new_authority;
    Ok(AuthorityTransferred { previous, new: new_authority })
}

/// Redirects fees to `new_treasury`.
pub fn update_treasury(ctx: &mut TransferAuthority, new_treasury: Pubkey) -> (r: Result<
    TreasuryUpdated,
    OtcError,
>)
    ensures
        match authority_refusal(old(ctx).pool@, old(ctx).authority) {
            Some(e) => r == Err::<TreasuryUpdated, OtcError>(e) && *final(ctx) == *old(ctx),
            None => {
                &&& final(ctx).pool@ == (PoolView { treasury: new_treasury, ..old(ctx).pool@ })
                &&& r == Ok::<TreasuryUpdated, OtcError>(
                    TreasuryUpdated { previous: old(ctx).pool.treasury, new: new_treasury },
                )
            },
        },
        final(ctx).authority == old(ctx).authority,
        final(ctx).pool@ == pool_after(
            old(ctx).pool@,
            old(ctx).authority,
            PoolRequest::UpdateTreasury { new_treasury },
        ),
        old(ctx).pool@.wf() ==> final(ctx).pool@.wf(),
{
    if ctx.pool.authority != ctx.authority {
        return Err(OtcError::Unauthorized);
    }
    let previous = ctx.pool.treasury;
    ctx.pool.treasury = new_treasury;
    Ok(TreasuryUpdated { previous, new: new_treasury })
}

/// Why `caller` may not whitelist `mint`, if they may not.
pub open spec fn add_mint_refusal(pool: PoolView, caller: Pubkey, mint: Pubkey) -> Option<
    OtcError,
> {
    if pool.authority != caller {
        Some(OtcError::Unauthorized)
    } else if pool.is_whitelisted(mint) {
        Some(OtcError::MintAlreadyWhitelisted)
    } else {
        None
    }
}

/// Whitelists `mint`, which must not be whitelisted yet.
pub fn add_whitelisted_mint(ctx: &mut ModifyPoolMints, mint: Pubkey) -> (r: Result<
    MintWhitelisted,
    OtcError,
>)
    ensures
        match add_mint_refusal(old(ctx).pool@, old(ctx).authority, mint) {
            Some(e) => r == Err::<MintWhitelisted, OtcError>(e) && *final(ctx) == *old(ctx),
            None => {
                &&& final(ctx).pool@ == (PoolView {
                    whitelisted_mints: old(ctx).pool@.whitelisted_mints.push(mint),
                    ..old(ctx).pool@
                })
                &&& r == Ok::<MintWhitelisted, OtcError>(MintWhitelisted { mint })
            },
        },
        final(ctx).authority == old(ctx).authority,
        final(ctx).pool@ == pool_after(
            old(ctx).pool@,
            old(ctx).authority,
            PoolRequest::AddWhitelistedMint { mint },
        ),
        old(ctx).pool@.wf() ==> final(ctx).pool@.wf(),
{
    if ctx.pool.authority != ctx.authority {
        return Err(OtcError::Unauthorized);
    }
    if contains_key(&ctx.pool.whitelisted_mints, &mint) {
        return Err(OtcError::MintAlreadyWhitelisted);
    }
    ctx.pool.whitelisted_mints.push(mint);
    Ok(MintWhitelisted { mint })
}

/// Why `caller` may not take `mint` off the whitelist, if they may not.
pub open spec fn remove_mint_refusal(pool: PoolView, caller: Pubkey, mint: Pubkey) -> Option<
    OtcError,
> {
    if pool.authority != caller {
        Some(OtcError::Unauthorized)
    } else if !pool.is_whitelisted(mint) {
        Some(OtcError::MintNotWhitelisted)
    } else {
        None
    }
}

/// Takes the first entry for `mint` off the whitelist. Pairs and offers that
/// name the mint stay as they are.
pub fn remove_whitelisted_mint(ctx: &mut ModifyPoolMints, mint: Pubkey) -> (r: Result<
    MintRemoved,
    OtcError,
>)
    ensures
        match remove_mint_refusal(old(ctx).pool@, old(ctx).authority, mint) {
            Some(e) => r == Err::<MintRemoved, OtcError>(e) && *final(ctx) == *old(ctx),
            None => {
                &&& final(ctx).pool@ == (PoolView {
                    whitelisted_mints: without_first(old(ctx).pool@.whitelisted_mints, mint),
                    ..old(ctx).pool@
                })
                &&& r == Ok::<MintRemoved, OtcError>(MintRemoved { mint })
            },
        },
        final(ctx).authority == old(ctx).authority,
        final(ctx).pool@ == pool_after(
            old(ctx).pool@,
            old(ctx).authority,
            PoolRequest::RemoveWhitelistedMint { mint },
        ),
        old(ctx).pool@.wf() ==> final(ctx).pool@.wf(),
{
    if ctx.pool.authority != ctx.authority {
        return Err(OtcError::Unauthorized);
    }
    match position_of_key(&ctx.pool.whitelisted_mints, &mint) {
        Some(i) => {
            ctx.pool.whitelisted_mints.swap_remove(i);
            Ok(MintRemoved { mint })
        },
        None => Err(OtcError::MintNotWhitelisted),
    }
}

/// Why `caller` may not admit `partner`, if they may not: the first of the
/// conditions below that fails.
pub open spec fn add_partner_refusal(pool: PoolView, caller: Pubkey, partner: Pubkey) -> Option<
    OtcError,
> {
    if pool.authority != caller {
        Some(OtcError::Unauthorized)
    } else if pool.partners.len() >= pool.max_partners {
        Some(OtcError::PartnerLimitReached)
    } else if pool.is_partner(partner) {
        Some(OtcError::PartnerAlreadyExists)
    } else {
        None
    }
}

/// Admits `partner`, while there is room and they are not a partner yet.
pub fn add_partner(ctx: &mut ModifyPartner, partner: Pubkey) -> (r: Result<PartnerAdded, OtcError>)
    ensures
        match add_partner_refusal(old(ctx).pool@, old(ctx).authority, partner) {
            Some(e) => r == Err::<PartnerAdded, OtcError>(e) && *final(ctx) == *old(ctx),
            None => {
                &&& final(ctx).pool@ == (PoolView {
                    partners: old(ctx).pool@.partners.push(partner),
                    ..old(ctx).pool@
                })
                &&& r == Ok::<PartnerAdded, OtcError>(PartnerAdded { partner })
            },
        },
        final(ctx).authority == old(ctx).authority,
        final(ctx).pool@ == pool_after(
            old(ctx).pool@,
            old(ctx).authority,
            PoolRequest::AddPartner { partner },
        ),
        old(ctx).pool@.wf() ==> final(ctx).pool@.wf(),
{
    if ctx.pool.authority != ctx.authority {
        return Err(OtcError::Unauthorized);
    }
    if ctx.pool.partners.len() >= ctx.pool.max_partners as usize {
        return Err(OtcError::PartnerLimitReached);
    }
    if contains_key(&ctx.pool.partners, &partner) {
        return Err(OtcError::PartnerAlreadyExists);
    }
    proof {
        if ctx.pool@.wf() {
            lemma_push_of_distinct(ctx.pool@.partners, partner);
        }
    }
    ctx.pool.partners.push(partner);
    Ok(PartnerAdded { partner })
}

/// Why `caller` may not remove `partner`, if they may not.
pub open spec fn remove_partner_refusal(pool: PoolView, caller: Pubkey, partner: Pubkey) -> Option<
    OtcError,
> {
    if pool.authority != caller {
        Some(OtcError::Unauthorized)
    } else if !pool.is_partner(partner) {
        Some(OtcError::PartnerNotFound)
    } else {
        None
    }
}

/// Removes `partner` from the partner list.
pub fn remove_partner(ctx: &mut ModifyPartner, partner: Pubkey) -> (r: Result<
    PartnerRemoved,
    OtcError,
>)
    ensures
        match remove_partner_refusal(old(ctx).pool@, old(ctx).authority, partner) {
            Some(e) => r == Err::<PartnerRemoved, OtcError>(e) && *final(ctx) == *old(ctx),
            None => {
                &&& final(ctx).pool@ == (PoolView {
                    partners: without_first(old(ctx).pool@.partners, partner),
                    ..old(ctx).pool@
                })
                &&& r == Ok::<PartnerRemoved, OtcError>(PartnerRemoved { partner })
            },
        },
        final(ctx).authority == old(ctx).authority,
        final(ctx).pool@ == pool_after(
            old(ctx).pool@,
            old(ctx).authority,
            PoolRequest::RemovePartner { partner },
        ),
        old(ctx).pool@.wf() ==> final(ctx).pool@.wf(),
{
    if ctx.pool.authority != ctx.authority {
        return Err(OtcError::Unauthorized);
    }
    match position_of_key(&ctx.pool.partners, &partner) {
        Some(i) => {
            proof {
                if ctx.pool@.wf() {
                    lemma_without_first_of_distinct(ctx.pool@.partners, partner);
                }
            }
            ctx.pool.partners.swap_remove(i);
            Ok(PartnerRemoved { partner })
        },
        None => Err(OtcError::PartnerNotFound),
    }
}

/// Why `caller` may not make the ordered pair `(mint_a, mint_b)` tradable, if
/// they may not: the first of the conditions below that fails.
pub open spec fn add_pair_refusal(
    pool: PoolView,
    caller: Pubkey,
    mint_a: Pubkey,
    mint_b: Pubkey,
) -> Option<OtcError> {
    if pool.authority != caller {
        Some(OtcError::Unauthorized)
    } else if !pool.is_whitelisted(mint_a) || !pool.is_whitelisted(mint_b) {
        Some(OtcError::MintNotWhitelisted)
    } else if pool.supports_pair(mint_a, mint_b) {
        Some(OtcError::PairAlreadyExists)
    } else if pool.supported_pairs.len() >= Pool::MAX_PAIRS {
        Some(OtcError::PairLimitReached)
    } else {
        None
    }
}

/// Makes the ordered pair `(mint_a, mint_b)` tradable. Both mints must be
/// whitelisted, the pair must not be supported yet, and the list must have
/// room for it; the reverse pair is another pair.
pub fn add_supported_pair(ctx: &mut ModifySupportedPair, mint_a: Pubkey, mint_b: Pubkey) -> (r:
    Result<SupportedPairAdded, OtcError>)
    ensures
        match add_pair_refusal(old(ctx).pool@, old(ctx).authority, mint_a, mint_b) {
            Some(e) => r == Err::<SupportedPairAdded, OtcError>(e) && *final(ctx) == *old(ctx),
            None => {
                &&& final(ctx).pool@ == (PoolView {
                    supported_pairs: old(ctx).pool@.supported_pairs.push(Pair { mint_a, mint_b }),
                    ..old(ctx).pool@
                })
                &&& r == Ok::<SupportedPairAdded, OtcError>(SupportedPairAdded { mint_a, mint_b })
            },
        },
        final(ctx).authority == old(ctx).authority,
        final(ctx).pool@ == pool_after(
            old(ctx).pool@,
            old(ctx).authority,
            PoolRequest::AddSupportedPair { mint_a, mint_b },
        ),
        old(ctx).pool@.wf() ==> final(ctx).pool@.wf(),
{
    if ctx.pool.authority != ctx.authority {
        return Err(OtcError::Unauthorized);
    }
    if !contains_key(&ctx.pool.whitelisted_mints, &mint_a) {
        return Err(OtcError::MintNotWhitelisted);
    }
    if !contains_key(&ctx.pool.whitelisted_mints, &mint_b) {
        return Err(OtcError::MintNotWhitelisted);
    }
    if position_of_pair(&ctx.pool.supported_pairs, &mint_a, &mint_b).is_some() {
        return Err(OtcError::PairAlreadyExists);
    }
    if ctx.pool.supported_pairs.len() >= Pool::MAX_PAIRS {
        return Err(OtcError::PairLimitReached);
    }
    proof {
        if ctx.pool@.wf() {
            lemma_push_of_distinct(ctx.pool@.supported_pairs, Pair { mint_a, mint_b });
        }
    }
    ctx.pool.supported_pairs.push(Pair { mint_a, mint_b });
    Ok(SupportedPairAdded { mint_a, mint_b })
}

/// Why `caller` may not withdraw the ordered pair `(mint_a, mint_b)`, if they
/// may not.
pub open spec fn remove_pair_refusal(
    pool: PoolView,
    caller: Pubkey,
    mint_a: Pubkey,
    mint_b: Pubkey,
) -> Option<OtcError> {
    if pool.authority != caller {
        Some(OtcError::Unauthorized)
    } else if !pool.supports_pair(mint_a, mint_b) {
        Some(OtcError::PairNotFound)
    } else {
        None
    }
}

/// Withdraws the ordered pair `(mint_a, mint_b)` from trading.
pub fn remove_supported_pair(ctx: &mut ModifySupportedPair, mint_a: Pubkey, mint_b: Pubkey) -> (r:
    Result<SupportedPairRemoved, OtcError>)
    ensures
        match remove_pair_refusal(old(ctx).pool@, old(ctx).authority, mint_a, mint_b) {
            Some(e) => r == Err::<SupportedPairRemoved, OtcError>(e) && *final(ctx) == *old(ctx),
            None => {
                &&& final(ctx).pool@ == (PoolView {
                    supported_pairs: without_first(
                        old(ctx).pool@.supported_pairs,
                        Pair { mint_a, mint_b },
                    ),
                    ..old(ctx).pool@
                })
                &&& r == Ok::<SupportedPairRemoved, OtcError>(
                    SupportedPairRemoved { mint_a, mint_b },
                )
            },
        },
        final(ctx).authority == old(ctx).authority,
        final(ctx).pool@ == pool_after(
            old(ctx).pool@,
            old(ctx).authority,
            PoolRequest::RemoveSupportedPair { mint_a, mint_b },
        ),
        old(ctx).pool@.wf() ==> final(ctx).pool@.wf(),
{
    if ctx.pool.authority != ctx.authority {
        return Err(OtcError::Unauthorized);
    }
    match position_of_pair(&ctx.pool.supported_pairs, &mint_a, &mint_b) {
        Some(i) => {
            proof {
                if ctx.pool@.wf() {
                    lemma_without_first_of_distinct(
                        ctx.pool@.supported_pairs,
                        Pair { mint_a, mint_b },
                    );
                }
            }
            ctx.pool.supported_pairs.swap_remove(i);
            Ok(SupportedPairRemoved { mint_a, mint_b })
        },
        None => Err(OtcError::PairNotFound),
    }
}

/// Stops trading: from now on swaps and the creation and acceptance of
/// offers are refused. Pausing a paused pool succeeds and changes nothing.
pub fn pause_pool(ctx: &mut ModifyPoolState) -> (r: Result<PoolPaused, OtcError>)
    ensures
        match authority_refusal(old(ctx).pool@, old(ctx).authority) {
            Some(e) => r == Err::<PoolPaused, OtcError>(e) && *final(ctx) == *old(ctx),
            None => {
                &&& final(ctx).pool@ == (PoolView { paused: true, ..old(ctx).pool@ })
                &&& r == Ok::<PoolPaused, OtcError>(
                    PoolPaused {
                        admin: old(ctx).pool.authority,
                        timestamp: old(ctx).clock.unix_timestamp,
                    },
                )
            },
        },
        final(ctx).authority == old(ctx).authority,
        final(ctx).pool@ == pool_after(
            old(ctx).pool@,
            old(ctx).authority,
            PoolRequest::Pause,
        ),
        old(ctx).pool@.wf() ==> final(ctx).pool@.wf(),
        final(ctx).clock == old(ctx).clock,
{
    if ctx.pool.authority != ctx.authority {
        return Err(OtcError::Unauthorized);
    }
    ctx.pool.paused = true;
    Ok(PoolPaused { admin: ctx.pool.authority, timestamp: ctx.clock.unix_timestamp })
}

/// Opens trading again. Resuming a pool that is not paused succeeds and
/// changes nothing.
pub fn resume_pool(ctx: &mut ModifyPoolState) -> (r: Result<PoolResumed, OtcError>)
    ensures
        match authority_refusal(old(ctx).pool@, old(ctx).authority) {
            Some(e) => r == Err::<PoolResumed, OtcError>(e) && *final(ctx) == *old(ctx),
            None => {
                &&& final(ctx).pool@ == (PoolView { paused: false, ..old(ctx).pool@ })
                &&& r == Ok::<PoolResumed, OtcError>(
                    PoolResumed {
                        admin: old(ctx).pool.authority,
                        timestamp: old(ctx).clock.unix_timestamp,
                    },
                )
            },
        },
        final(ctx).authority == old(ctx).authority,
        final(ctx).pool@ == pool_after(
            old(ctx).pool@,
            old(ctx).authority,
            PoolRequest::Resume,
        ),
        old(ctx).pool@.wf() ==> final(ctx).pool@.wf(),
        final(ctx).clock == old(ctx).clock,
{
    if ctx.pool.authority != ctx.authority {
        return Err(OtcError::Unauthorized);
    }
    ctx.pool.paused = false;
    Ok(PoolResumed { admin: ctx.pool.authority, timestamp: ctx.clock.unix_timestamp })
}

} // verus!
