use otc_pool::{
    swap_direct, Endpoint, OtcError, Pair, Pool, Pubkey, Signatory, SwapDirect,
    SwapDirectExecuted, Transfer,
};

fn party(n: u8) -> Pubkey {
    Pubkey { bytes: [n; 32] }
}

fn swapping() -> SwapDirect {
    SwapDirect {
        pool: Pool {
            authority: party(1),
            max_partners: 10,
            partners: vec![party(10), party(11)],
            whitelisted_mints: vec![party(50), party(51)],
            supported_pairs: vec![Pair { mint_a: party(50), mint_b: party(51) }],
            paused: false,
            fee_bps: 250,
            treasury: party(2),
            min_swap_amount: 10,
            max_expiration_secs: 1_000,
        },
        party_a: party(10),
        party_b: party(11),
        mint_a: party(50),
        mint_b: party(51),
    }
}

#[test]
fn swap_direct_moves_both_legs_whole_and_free_of_fees() {
    let ctx = swapping();
    let (event, transfers) = swap_direct(&ctx, 1_000, 40).unwrap();
    assert_eq!(
        event,
        SwapDirectExecuted {
            party_a: party(10),
            party_b: party(11),
            mint_a: party(50),
            mint_b: party(51),
            filled_amount_a: 1_000,
            filled_amount_b: 40,
            remaining_amount_a: 1_000,
            remaining_amount_b: 40,
        }
    );
    assert_eq!(
        transfers,
        vec![
            Transfer {
                source: Endpoint::PartyASource,
                destination: Endpoint::PartyBDestination,
                authority: Signatory::PartyA,
                amount: 1_000,
            },
            Transfer {
                source: Endpoint::PartyBSource,
                destination: Endpoint::PartyADestination,
                authority: Signatory::PartyB,
                amount: 40,
            },
        ]
    );
    assert_eq!(ctx, swapping());
}

#[test]
fn swap_direct_refuses_while_paused() {
    let mut ctx = swapping();
    ctx.pool.paused = true;
    assert_eq!(swap_direct(&ctx, 1_000, 40), Err(OtcError::PoolIsPaused));
    // Paused is reported before a leg that is too small.
    assert_eq!(swap_direct(&ctx, 0, 0), Err(OtcError::PoolIsPaused));
}

#[test]
fn swap_direct_refuses_a_leg_below_the_minimum() {
    let ctx = swapping();
    assert_eq!(swap_direct(&ctx, 9, 40), Err(OtcError::SwapBelowMinimum));
    assert_eq!(swap_direct(&ctx, 40, 9), Err(OtcError::SwapBelowMinimum));
    assert!(swap_direct(&ctx, 10, 10).is_ok());
}

#[test]
fn swap_direct_refuses_a_party_who_is_no_partner() {
    let mut ctx = swapping();
    ctx.party_a = party(12);
    assert_eq!(swap_direct(&ctx, 1_000, 40), Err(OtcError::UnauthorizedPartner));
    let mut ctx = swapping();
    ctx.party_b = party(12);
    assert_eq!(swap_direct(&ctx, 1_000, 40), Err(OtcError::UnauthorizedPartner));
}

#[test]
fn swap_direct_refuses_an_unlisted_mint() {
    let mut ctx = swapping();
    ctx.mint_a = party(60);
    assert_eq!(swap_direct(&ctx, 1_000, 40), Err(OtcError::MintNotWhitelisted));
    let mut ctx = swapping();
    ctx.mint_b = party(60);
    assert_eq!(swap_direct(&ctx, 1_000, 40), Err(OtcError::MintNotWhitelisted));
}

#[test]
fn swap_direct_refuses_the_reverse_of_a_supported_pair() {
    let mut ctx = swapping();
    ctx.mint_a = party(51);
    ctx.mint_b = party(50);
    assert_eq!(swap_direct(&ctx, 1_000, 40), Err(OtcError::PairNotSupported));
}

#[test]
fn swap_direct_lets_a_partner_swap_with_themselves() {
    let mut ctx = swapping();
    ctx.party_b = party(10);
    assert!(swap_direct(&ctx, 1_000, 40).is_ok());
}
