use otc_pool::{
    add_partner, add_supported_pair, add_whitelisted_mint, initialize_pool, pause_pool,
    remove_partner, remove_supported_pair, remove_whitelisted_mint, resume_pool,
    transfer_authority, update_treasury, AuthorityTransferred, Clock, InitializePool,
    MintRemoved, MintWhitelisted, ModifyPartner, Offer, ModifyPoolMints, ModifyPoolState,
    ModifySupportedPair, OtcError, Pair, PartnerAdded, PartnerRemoved, Pool, PoolInitialized,
    PoolPaused, PoolResumed, Pubkey, SupportedPairAdded, SupportedPairRemoved,
    TransferAuthority, TreasuryUpdated,
};

fn key(n: u8) -> Pubkey {
    Pubkey { bytes: [n; 32] }
}

const ADMIN: u8 = 1;
const TREASURY: u8 = 2;
const STRANGER: u8 = 99;

fn pool(max_partners: u8) -> Pool {
    Pool {
        authority: key(ADMIN),
        max_partners,
        partners: Vec::new(),
        whitelisted_mints: vec![key(50), key(51)],
        supported_pairs: Vec::new(),
        paused: false,
        fee_bps: 250,
        treasury: key(TREASURY),
        min_swap_amount: 10,
        max_expiration_secs: 1_000,
    }
}

#[test]
fn initialize_pool_sets_every_field() {
    let mut stale = pool(3);
    stale.partners = vec![key(7)];
    stale.supported_pairs = vec![Pair { mint_a: key(50), mint_b: key(51) }];
    stale.paused = true;
    let mut ctx = InitializePool { pool: stale, authority: key(ADMIN) };
    let event =
        initialize_pool(&mut ctx, 5, 30, key(TREASURY), 100, 86_400, vec![key(60), key(61)]);
    assert_eq!(
        event,
        Ok(PoolInitialized {
            authority: key(ADMIN),
            max_partners: 5,
            fee_bps: 30,
            treasury: key(TREASURY),
            min_swap_amount: 100,
            max_expiration_secs: 86_400,
        })
    );
    assert_eq!(
        ctx.pool,
        Pool {
            authority: key(ADMIN),
            max_partners: 5,
            partners: vec![],
            whitelisted_mints: vec![key(60), key(61)],
            supported_pairs: vec![],
            paused: false,
            fee_bps: 30,
            treasury: key(TREASURY),
            min_swap_amount: 100,
            max_expiration_secs: 86_400,
        }
    );
}

#[test]
fn initialize_pool_keeps_the_whitelist_order() {
    let mut ctx = InitializePool { pool: pool(0), authority: key(ADMIN) };
    initialize_pool(&mut ctx, 1, 0, key(TREASURY), 0, 0, vec![key(9), key(3), key(9)]).unwrap();
    assert_eq!(ctx.pool.whitelisted_mints, vec![key(9), key(3), key(9)]);
}

#[test]
fn transfer_authority_hands_the_pool_over() {
    let mut ctx = TransferAuthority { pool: pool(3), authority: key(ADMIN) };
    let event = transfer_authority(&mut ctx, key(8));
    assert_eq!(event, Ok(AuthorityTransferred { previous: key(ADMIN), new: key(8) }));
    assert_eq!(ctx.pool.authority, key(8));

    // The former authority has no say any more.
    let before = ctx.clone();
    assert_eq!(transfer_authority(&mut ctx, key(ADMIN)), Err(OtcError::Unauthorized));
    assert_eq!(ctx, before);

    // The new one has.
    let mut ctx = TransferAuthority { pool: ctx.pool, authority: key(8) };
    assert!(update_treasury(&mut ctx, key(9)).is_ok());
}

#[test]
fn transfer_authority_refuses_a_stranger() {
    let mut ctx = TransferAuthority { pool: pool(3), authority: key(STRANGER) };
    let before = ctx.clone();
    assert_eq!(transfer_authority(&mut ctx, key(STRANGER)), Err(OtcError::Unauthorized));
    assert_eq!(ctx, before);
}

#[test]
fn update_treasury_redirects_fees() {
    let mut ctx = TransferAuthority { pool: pool(3), authority: key(ADMIN) };
    let event = update_treasury(&mut ctx, key(77));
    assert_eq!(event, Ok(TreasuryUpdated { previous: key(TREASURY), new: key(77) }));
    assert_eq!(ctx.pool.treasury, key(77));
    assert_eq!(ctx.pool.authority, key(ADMIN));
}

#[test]
fn update_treasury_refuses_a_stranger() {
    let mut ctx = TransferAuthority { pool: pool(3), authority: key(STRANGER) };
    let before = ctx.clone();
    assert_eq!(update_treasury(&mut ctx, key(77)), Err(OtcError::Unauthorized));
    assert_eq!(ctx, before);
}

#[test]
fn add_whitelisted_mint_appends() {
    let mut ctx = ModifyPoolMints { pool: pool(3), authority: key(ADMIN) };
    assert_eq!(add_whitelisted_mint(&mut ctx, key(52)), Ok(MintWhitelisted { mint: key(52) }));
    assert_eq!(ctx.pool.whitelisted_mints, vec![key(50), key(51), key(52)]);
}

#[test]
fn add_whitelisted_mint_refuses_a_duplicate() {
    let mut ctx = ModifyPoolMints { pool: pool(3), authority: key(ADMIN) };
    let before = ctx.clone();
    assert_eq!(add_whitelisted_mint(&mut ctx, key(51)), Err(OtcError::MintAlreadyWhitelisted));
    assert_eq!(ctx, before);
}

#[test]
fn add_whitelisted_mint_refuses_a_stranger_first() {
    let mut ctx = ModifyPoolMints { pool: pool(3), authority: key(STRANGER) };
    let before = ctx.clone();
    // Unauthorized wins over the duplicate.
    assert_eq!(add_whitelisted_mint(&mut ctx, key(51)), Err(OtcError::Unauthorized));
    assert_eq!(ctx, before);
}

#[test]
fn remove_whitelisted_mint_moves_the_last_entry_into_the_gap() {
    let mut p = pool(3);
    p.whitelisted_mints = vec![key(50), key(51), key(52), key(53)];
    let mut ctx = ModifyPoolMints { pool: p, authority: key(ADMIN) };
    assert_eq!(remove_whitelisted_mint(&mut ctx, key(51)), Ok(MintRemoved { mint: key(51) }));
    assert_eq!(ctx.pool.whitelisted_mints, vec![key(50), key(53), key(52)]);
    // Removing the last entry just drops it.
    assert!(remove_whitelisted_mint(&mut ctx, key(52)).is_ok());
    assert_eq!(ctx.pool.whitelisted_mints, vec![key(50), key(53)]);
}

#[test]
fn remove_whitelisted_mint_takes_the_first_of_two_entries() {
    let mut p = pool(3);
    p.whitelisted_mints = vec![key(9), key(3), key(9), key(4)];
    let mut ctx = ModifyPoolMints { pool: p, authority: key(ADMIN) };
    assert!(remove_whitelisted_mint(&mut ctx, key(9)).is_ok());
    assert_eq!(ctx.pool.whitelisted_mints, vec![key(4), key(3), key(9)]);
}

#[test]
fn remove_whitelisted_mint_refuses_a_missing_mint() {
    let mut ctx = ModifyPoolMints { pool: pool(3), authority: key(ADMIN) };
    let before = ctx.clone();
    assert_eq!(remove_whitelisted_mint(&mut ctx, key(52)), Err(OtcError::MintNotWhitelisted));
    assert_eq!(ctx, before);
}

#[test]
fn remove_whitelisted_mint_leaves_pairs_alone() {
    let mut p = pool(3);
    p.supported_pairs = vec![Pair { mint_a: key(50), mint_b: key(51) }];
    let mut ctx = ModifyPoolMints { pool: p, authority: key(ADMIN) };
    assert!(remove_whitelisted_mint(&mut ctx, key(50)).is_ok());
    assert_eq!(ctx.pool.whitelisted_mints, vec![key(51)]);
    assert_eq!(ctx.pool.supported_pairs, vec![Pair { mint_a: key(50), mint_b: key(51) }]);
}

#[test]
fn add_partner_appends() {
    let mut ctx = ModifyPartner { pool: pool(3), authority: key(ADMIN) };
    assert_eq!(add_partner(&mut ctx, key(10)), Ok(PartnerAdded { partner: key(10) }));
    assert_eq!(add_partner(&mut ctx, key(11)), Ok(PartnerAdded { partner: key(11) }));
    assert_eq!(ctx.pool.partners, vec![key(10), key(11)]);
}

#[test]
fn add_partner_refuses_when_the_list_is_full() {
    let mut ctx = ModifyPartner { pool: pool(2), authority: key(ADMIN) };
    add_partner(&mut ctx, key(10)).unwrap();
    add_partner(&mut ctx, key(11)).unwrap();
    let before = ctx.clone();
    assert_eq!(add_partner(&mut ctx, key(12)), Err(OtcError::PartnerLimitReached));
    assert_eq!(ctx, before);
    assert_eq!(ctx.pool.partners, vec![key(10), key(11)]);
    // The limit is reported before the duplicate.
    assert_eq!(add_partner(&mut ctx, key(10)), Err(OtcError::PartnerLimitReached));
}

#[test]
fn add_partner_refuses_when_no_partner_is_allowed() {
    let mut ctx = ModifyPartner { pool: pool(0), authority: key(ADMIN) };
    assert_eq!(add_partner(&mut ctx, key(10)), Err(OtcError::PartnerLimitReached));
    assert!(ctx.pool.partners.is_empty());
}

#[test]
fn add_partner_fills_the_largest_list() {
    let mut ctx = ModifyPartner { pool: pool(255), authority: key(ADMIN) };
    for n in 0..255u16 {
        let mut bytes = [0u8; 32];
        bytes[0] = (n % 256) as u8;
        bytes[1] = 1;
        assert!(add_partner(&mut ctx, Pubkey { bytes }).is_ok());
    }
    assert_eq!(ctx.pool.partners.len(), 255);
    assert_eq!(add_partner(&mut ctx, key(200)), Err(OtcError::PartnerLimitReached));
    assert_eq!(ctx.pool.partners.len(), 255);
}

#[test]
fn add_partner_refuses_a_duplicate() {
    let mut ctx = ModifyPartner { pool: pool(3), authority: key(ADMIN) };
    add_partner(&mut ctx, key(10)).unwrap();
    let before = ctx.clone();
    assert_eq!(add_partner(&mut ctx, key(10)), Err(OtcError::PartnerAlreadyExists));
    assert_eq!(ctx, before);
}

#[test]
fn add_partner_refuses_a_stranger() {
    let mut ctx = ModifyPartner { pool: pool(0), authority: key(STRANGER) };
    let before = ctx.clone();
    assert_eq!(add_partner(&mut ctx, key(10)), Err(OtcError::Unauthorized));
    assert_eq!(ctx, before);
}

#[test]
fn remove_partner_moves_the_last_entry_into_the_gap() {
    let mut p = pool(5);
    p.partners = vec![key(10), key(11), key(12)];
    let mut ctx = ModifyPartner { pool: p, authority: key(ADMIN) };
    assert_eq!(remove_partner(&mut ctx, key(10)), Ok(PartnerRemoved { partner: key(10) }));
    assert_eq!(ctx.pool.partners, vec![key(12), key(11)]);
    // The freed place can be taken again.
    assert!(add_partner(&mut ctx, key(10)).is_ok());
    assert_eq!(ctx.pool.partners, vec![key(12), key(11), key(10)]);
}

#[test]
fn remove_partner_refuses_a_non_member() {
    let mut p = pool(5);
    p.partners = vec![key(10), key(11)];
    let mut ctx = ModifyPartner { pool: p, authority: key(ADMIN) };
    let before = ctx.clone();
    assert_eq!(remove_partner(&mut ctx, key(12)), Err(OtcError::PartnerNotFound));
    assert_eq!(ctx, before);
    assert_eq!(ctx.pool.partners, vec![key(10), key(11)]);
}

#[test]
fn remove_partner_refuses_a_stranger() {
    let mut p = pool(5);
    p.partners = vec![key(10)];
    let mut ctx = ModifyPartner { pool: p, authority: key(STRANGER) };
    let before = ctx.clone();
    assert_eq!(remove_partner(&mut ctx, key(10)), Err(OtcError::Unauthorized));
    assert_eq!(ctx, before);
}

#[test]
fn add_supported_pair_appends() {
    let mut ctx = ModifySupportedPair { pool: pool(3), authority: key(ADMIN) };
    assert_eq!(
        add_supported_pair(&mut ctx, key(50), key(51)),
        Ok(SupportedPairAdded { mint_a: key(50), mint_b: key(51) })
    );
    assert_eq!(ctx.pool.supported_pairs, vec![Pair { mint_a: key(50), mint_b: key(51) }]);
}

#[test]
fn add_supported_pair_takes_the_reverse_as_another_pair() {
    let mut ctx = ModifySupportedPair { pool: pool(3), authority: key(ADMIN) };
    add_supported_pair(&mut ctx, key(50), key(51)).unwrap();
    assert!(add_supported_pair(&mut ctx, key(51), key(50)).is_ok());
    assert_eq!(
        ctx.pool.supported_pairs,
        vec![
            Pair { mint_a: key(50), mint_b: key(51) },
            Pair { mint_a: key(51), mint_b: key(50) },
        ]
    );
}

#[test]
fn add_supported_pair_refuses_an_unlisted_mint() {
    let mut ctx = ModifySupportedPair { pool: pool(3), authority: key(ADMIN) };
    let before = ctx.clone();
    assert_eq!(add_supported_pair(&mut ctx, key(50), key(52)), Err(OtcError::MintNotWhitelisted));
    assert_eq!(add_supported_pair(&mut ctx, key(52), key(50)), Err(OtcError::MintNotWhitelisted));
    assert_eq!(add_supported_pair(&mut ctx, key(52), key(53)), Err(OtcError::MintNotWhitelisted));
    assert_eq!(ctx, before);
    assert!(ctx.pool.supported_pairs.is_empty());
}

#[test]
fn add_supported_pair_refuses_a_duplicate() {
    let mut ctx = ModifySupportedPair { pool: pool(3), authority: key(ADMIN) };
    add_supported_pair(&mut ctx, key(50), key(51)).unwrap();
    let before = ctx.clone();
    assert_eq!(add_supported_pair(&mut ctx, key(50), key(51)), Err(OtcError::PairAlreadyExists));
    assert_eq!(ctx, before);
}

fn pool_with_pairs(count: u8) -> Pool {
    let mut p = pool(3);
    p.whitelisted_mints = (100..100 + count + 2).map(key).collect();
    // Each mint paired with its successor: `count` different pairs.
    p.supported_pairs =
        (100..100 + count).map(|n| Pair { mint_a: key(n), mint_b: key(n + 1) }).collect();
    p
}

#[test]
fn add_supported_pair_fills_the_list_to_its_limit() {
    let mut ctx = ModifySupportedPair { pool: pool_with_pairs(9), authority: key(ADMIN) };
    assert_eq!(
        add_supported_pair(&mut ctx, key(109), key(110)),
        Ok(SupportedPairAdded { mint_a: key(109), mint_b: key(110) })
    );
    assert_eq!(ctx.pool.supported_pairs.len(), Pool::MAX_PAIRS);
    assert_eq!(ctx.pool.supported_pairs, pool_with_pairs(10).supported_pairs);
}

#[test]
fn add_supported_pair_refuses_when_the_list_is_full() {
    let mut ctx = ModifySupportedPair { pool: pool_with_pairs(10), authority: key(ADMIN) };
    let before = ctx.clone();
    assert_eq!(add_supported_pair(&mut ctx, key(110), key(111)), Err(OtcError::PairLimitReached));
    // The reverse of a listed pair is a new pair, and there is no room for it either.
    assert_eq!(add_supported_pair(&mut ctx, key(101), key(100)), Err(OtcError::PairLimitReached));
    assert_eq!(ctx, before);
    assert_eq!(ctx.pool.supported_pairs.len(), 10);
}

#[test]
fn add_supported_pair_reports_the_limit_last() {
    let mut ctx = ModifySupportedPair { pool: pool_with_pairs(10), authority: key(ADMIN) };
    let before = ctx.clone();
    // On a full list an unlisted mint and a duplicate are still told apart.
    assert_eq!(add_supported_pair(&mut ctx, key(110), key(200)), Err(OtcError::MintNotWhitelisted));
    assert_eq!(add_supported_pair(&mut ctx, key(200), key(110)), Err(OtcError::MintNotWhitelisted));
    assert_eq!(add_supported_pair(&mut ctx, key(100), key(101)), Err(OtcError::PairAlreadyExists));
    assert_eq!(ctx, before);
    ctx.authority = key(STRANGER);
    assert_eq!(add_supported_pair(&mut ctx, key(110), key(111)), Err(OtcError::Unauthorized));
}

#[test]
fn add_supported_pair_has_room_again_after_a_removal() {
    let mut ctx = ModifySupportedPair { pool: pool_with_pairs(10), authority: key(ADMIN) };
    assert_eq!(add_supported_pair(&mut ctx, key(110), key(111)), Err(OtcError::PairLimitReached));
    remove_supported_pair(&mut ctx, key(100), key(101)).unwrap();
    assert_eq!(ctx.pool.supported_pairs.len(), 9);
    assert!(add_supported_pair(&mut ctx, key(110), key(111)).is_ok());
    assert_eq!(ctx.pool.supported_pairs.len(), 10);
    assert_eq!(add_supported_pair(&mut ctx, key(100), key(101)), Err(OtcError::PairLimitReached));
}

#[test]
fn add_whitelisted_mint_goes_on_past_ten_mints() {
    let mut ctx = ModifyPoolMints { pool: pool_with_pairs(10), authority: key(ADMIN) };
    assert_eq!(ctx.pool.whitelisted_mints.len(), 12);
    assert!(add_whitelisted_mint(&mut ctx, key(200)).is_ok());
    assert_eq!(ctx.pool.whitelisted_mints.len(), 13);
}

#[test]
fn add_supported_pair_refuses_a_stranger() {
    let mut ctx = ModifySupportedPair { pool: pool(3), authority: key(STRANGER) };
    let before = ctx.clone();
    assert_eq!(add_supported_pair(&mut ctx, key(50), key(52)), Err(OtcError::Unauthorized));
    assert_eq!(ctx, before);
}

#[test]
fn remove_supported_pair_moves_the_last_entry_into_the_gap() {
    let mut p = pool(3);
    p.supported_pairs = vec![
        Pair { mint_a: key(50), mint_b: key(51) },
        Pair { mint_a: key(51), mint_b: key(50) },
        Pair { mint_a: key(50), mint_b: key(50) },
    ];
    let mut ctx = ModifySupportedPair { pool: p, authority: key(ADMIN) };
    assert_eq!(
        remove_supported_pair(&mut ctx, key(50), key(51)),
        Ok(SupportedPairRemoved { mint_a: key(50), mint_b: key(51) })
    );
    assert_eq!(
        ctx.pool.supported_pairs,
        vec![
            Pair { mint_a: key(50), mint_b: key(50) },
            Pair { mint_a: key(51), mint_b: key(50) },
        ]
    );
}

#[test]
fn remove_supported_pair_refuses_the_reverse_pair() {
    let mut p = pool(3);
    p.supported_pairs = vec![Pair { mint_a: key(50), mint_b: key(51) }];
    let mut ctx = ModifySupportedPair { pool: p, authority: key(ADMIN) };
    let before = ctx.clone();
    assert_eq!(remove_supported_pair(&mut ctx, key(51), key(50)), Err(OtcError::PairNotFound));
    assert_eq!(ctx, before);
}

#[test]
fn remove_supported_pair_refuses_a_stranger() {
    let mut p = pool(3);
    p.supported_pairs = vec![Pair { mint_a: key(50), mint_b: key(51) }];
    let mut ctx = ModifySupportedPair { pool: p, authority: key(STRANGER) };
    let before = ctx.clone();
    assert_eq!(remove_supported_pair(&mut ctx, key(50), key(51)), Err(OtcError::Unauthorized));
    assert_eq!(ctx, before);
}

#[test]
fn pause_pool_and_resume_pool_flip_the_switch() {
    let mut ctx = ModifyPoolState {
        pool: pool(3),
        authority: key(ADMIN),
        clock: Clock { unix_timestamp: 1_700_000_000 },
    };
    assert_eq!(
        pause_pool(&mut ctx),
        Ok(PoolPaused { admin: key(ADMIN), timestamp: 1_700_000_000 })
    );
    assert!(ctx.pool.paused);
    // Pausing again succeeds and changes nothing.
    let paused = ctx.clone();
    assert!(pause_pool(&mut ctx).is_ok());
    assert_eq!(ctx, paused);

    ctx.clock = Clock { unix_timestamp: 1_700_000_060 };
    assert_eq!(
        resume_pool(&mut ctx),
        Ok(PoolResumed { admin: key(ADMIN), timestamp: 1_700_000_060 })
    );
    assert!(!ctx.pool.paused);
    let open = ctx.clone();
    assert!(resume_pool(&mut ctx).is_ok());
    assert_eq!(ctx, open);
}

#[test]
fn pause_pool_and_resume_pool_refuse_a_stranger() {
    let mut ctx = ModifyPoolState {
        pool: pool(3),
        authority: key(STRANGER),
        clock: Clock { unix_timestamp: 5 },
    };
    let before = ctx.clone();
    assert_eq!(pause_pool(&mut ctx), Err(OtcError::Unauthorized));
    assert_eq!(ctx, before);
    ctx.pool.paused = true;
    let before = ctx.clone();
    assert_eq!(resume_pool(&mut ctx), Err(OtcError::Unauthorized));
    assert_eq!(ctx, before);
}

#[test]
fn governance_goes_on_while_the_pool_is_paused() {
    let mut p = pool(3);
    p.paused = true;
    let mut ctx = ModifyPartner { pool: p, authority: key(ADMIN) };
    assert!(add_partner(&mut ctx, key(10)).is_ok());
    let mut ctx = ModifyPoolMints { pool: ctx.pool, authority: key(ADMIN) };
    assert!(add_whitelisted_mint(&mut ctx, key(52)).is_ok());
    let mut ctx = ModifySupportedPair { pool: ctx.pool, authority: key(ADMIN) };
    assert!(add_supported_pair(&mut ctx, key(50), key(52)).is_ok());
    assert!(ctx.pool.paused);
}

#[test]
fn keys_differ_in_any_byte() {
    let a = key(1);
    let mut b = key(1);
    assert_eq!(a, b);
    b.bytes[31] = 2;
    assert_ne!(a, b);
    let mut c = key(1);
    c.bytes[0] = 0;
    assert_ne!(a, c);
}

#[test]
fn record_sizes_are_fixed() {
    assert_eq!(Pair::LEN, 64);
    assert_eq!(Pool::MAX_PARTNERS, 255);
    assert_eq!(Pool::MAX_MINTS, 10);
    assert_eq!(Pool::MAX_PAIRS, 10);
    assert_eq!(Pool::LEN, 9_224);
    assert_eq!(Offer::LEN, 146);
}

#[test]
fn errors_carry_their_text() {
    assert_eq!(OtcError::Unauthorized.message(), "Not authorized");
    assert_eq!(OtcError::PartnerLimitReached.message(), "Partner limit reached");
    assert_eq!(OtcError::PartnerAlreadyExists.message(), "Partner already exists");
    assert_eq!(OtcError::PartnerNotFound.message(), "Partner not found");
    assert_eq!(OtcError::PairAlreadyExists.message(), "Pair already exists");
    assert_eq!(OtcError::PairNotFound.message(), "Pair not found");
    assert_eq!(OtcError::PairNotSupported.message(), "Pair not supported");
    assert_eq!(OtcError::PoolIsPaused.message(), "Pool is paused");
    assert_eq!(OtcError::UnauthorizedPartner.message(), "Caller is not whitelisted");
    assert_eq!(OtcError::OfferAlreadyFulfilled.message(), "Offer already fulfilled");
    assert_eq!(OtcError::OfferExpired.message(), "Offer expired");
    assert_eq!(OtcError::OfferNotExpired.message(), "Offer not yet expired");
    assert_eq!(OtcError::SwapBelowMinimum.message(), "Swap amount below minimum");
    assert_eq!(OtcError::InvalidFillAmount.message(), "Invalid fill amount");
    assert_eq!(OtcError::MintAlreadyWhitelisted.message(), "Mint already whitelisted");
    assert_eq!(OtcError::MintNotWhitelisted.message(), "Mint not whitelisted");
    assert_eq!(OtcError::InvalidTreasuryAccount.message(), "Invalid treasury account");
    assert_eq!(OtcError::InvalidExtension.message(), "Invalid extension");
    assert_eq!(OtcError::ExpirationTooLong.message(), "Expiration too long");
    assert_eq!(OtcError::ArithmeticOverflow.message(), "Arithmetic overflow");
    assert_eq!(OtcError::PairLimitReached.message(), "Pair limit reached");
}
