use nft_marketplace_program::{
    calculate_marketplace_fee, cancel_offer, initialize_program_state, make_offer, set_minting_price,
    validate_royalty_percent, AcceptOffer, CancelOffer, CreateNFT, ErrorCode, InitializeProgramState, MakeOffer,
    MarketplaceError, Offer, ProgramState, Pubkey, SetCleanupReward, SetMintingPrice, TokenAccountData,
};

fn key(b: u8) -> Pubkey {
    Pubkey::new_from_array([b; 32])
}

fn empty_offer() -> Offer {
    Offer { buyer: key(0), mint: key(0), price: 0, expiry_time: 0, is_active: false, created_at: 0, bump: 0 }
}

fn offer_ctx(lamports: u64) -> MakeOffer {
    MakeOffer { buyer: key(2), buyer_lamports: lamports, mint: key(3), offer_key: key(6), offer: empty_offer(), offer_bump: 250 }
}

const YEAR: i64 = 365 * 24 * 60 * 60;

#[test]
fn fee_examples() {
    assert_eq!(calculate_marketplace_fee(1000, 250), Ok(25));
    assert_eq!(calculate_marketplace_fee(999, 1), Ok(0));
    assert_eq!(calculate_marketplace_fee(u64::MAX, 10_000), Ok(u64::MAX));
    assert_eq!(calculate_marketplace_fee(u64::MAX, 5_000), Ok(u64::MAX / 2));
    assert_eq!(calculate_marketplace_fee(100, 0), Ok(0));
    assert_eq!(calculate_marketplace_fee(100, 10_001), Err(ErrorCode::InvalidFeeBasisPoints));
}

#[test]
fn royalty_examples() {
    assert_eq!(validate_royalty_percent(0), Ok(0));
    assert_eq!(validate_royalty_percent(12), Ok(1200));
    assert_eq!(validate_royalty_percent(50), Ok(5000));
    assert_eq!(validate_royalty_percent(51), Err(ErrorCode::RoyaltyTooHigh));
    assert_eq!(validate_royalty_percent(u16::MAX), Err(ErrorCode::RoyaltyTooHigh));
}

#[test]
fn error_numbers_and_messages() {
    assert_eq!(ErrorCode::InvalidCollectionAuthority.code(), 6000);
    assert_eq!(ErrorCode::ListingNotActive.code(), 6005);
    assert_eq!(ErrorCode::RoyaltyTooHigh.code(), 6019);
    assert_eq!(ErrorCode::SellerCannotBuy.message(), "Seller cannot buy their own NFT");
    assert_eq!(ErrorCode::RoyaltyTooHigh.message(), "Royalty percentage too high - maximum 50%");
}

#[test]
fn keys_compare_by_bytes() {
    assert!(key(1).same_as(&key(1)));
    assert!(!key(1).same_as(&key(2)));
    assert!(Pubkey::zeroed().is_default());
    assert!(!key(1).is_default());
    let mut almost = [0u8; 32];
    almost[31] = 1;
    assert!(!Pubkey::new_from_array(almost).is_default());
}

#[test]
fn offer_within_a_year_is_made() {
    let mut ctx = offer_ctx(1_000);
    let ev = make_offer(&mut ctx, 1_000, 1_000 + YEAR, 9, 1_000).unwrap();
    assert!(ctx.offer.is_active);
    assert_eq!(ctx.offer.price, 1_000);
    assert_eq!(ctx.offer.expiry_time, 1_000 + YEAR);
    assert_eq!(ctx.offer.created_at, 1_000);
    assert_eq!(ctx.offer.bump, 250);
    assert!(ctx.offer.buyer.same_as(&key(2)));
    assert!(ctx.offer.mint.same_as(&key(3)));
    assert_eq!(ev.offer_id, 9);
    assert_eq!(ev.created_at, 1_000);
}

#[test]
fn offer_must_expire_in_future() {
    let mut ctx = offer_ctx(1_000);
    assert_eq!(make_offer(&mut ctx, 10, 1_000, 1, 1_000).unwrap_err(), MarketplaceError::Program(ErrorCode::OfferExpired));
    assert!(!ctx.offer.is_active);
}

#[test]
fn offer_longer_than_a_year_refused() {
    let mut ctx = offer_ctx(1_000);
    assert_eq!(
        make_offer(&mut ctx, 10, 1_001 + YEAR, 1, 1_000).unwrap_err(),
        MarketplaceError::Program(ErrorCode::OfferExpiryTooLong)
    );
}

#[test]
fn offer_needs_funds() {
    let mut ctx = offer_ctx(9);
    assert_eq!(make_offer(&mut ctx, 10, 2_000, 1, 1_000).unwrap_err(), MarketplaceError::Program(ErrorCode::InsufficientFunds));
}

#[test]
fn offer_cancel_once() {
    let mut made = offer_ctx(100);
    make_offer(&mut made, 50, 2_000, 1, 1_000).unwrap();
    let mut ctx = CancelOffer { buyer: key(2), offer_key: key(6), offer: made.offer };
    assert!(ctx.validate().is_ok());
    let ev = cancel_offer(&mut ctx).unwrap();
    assert!(!ctx.offer.is_active);
    assert!(ev.offer.same_as(&key(6)));
    assert!(ev.mint.same_as(&key(3)));
    assert_eq!(cancel_offer(&mut ctx).unwrap_err(), MarketplaceError::Program(ErrorCode::OfferNotActive));
}

#[test]
fn offer_cancel_by_other_buyer_refused() {
    let mut made = offer_ctx(100);
    make_offer(&mut made, 50, 2_000, 1, 1_000).unwrap();
    let mut ctx = CancelOffer { buyer: key(4), offer_key: key(6), offer: made.offer };
    assert_eq!(ctx.validate().unwrap_err(), MarketplaceError::ConstraintRaw);
    assert_eq!(cancel_offer(&mut ctx).unwrap_err(), MarketplaceError::Program(ErrorCode::UnauthorizedBuyer));
    assert!(ctx.offer.is_active);
}

#[test]
fn accept_offer_accounts() {
    let offer = Offer { buyer: key(2), mint: key(3), price: 5, expiry_time: 10, is_active: true, created_at: 1, bump: 1 };
    let good = AcceptOffer {
        seller: key(1),
        buyer: key(2),
        marketplace_authority: key(7),
        mint: key(3),
        seller_token_account: TokenAccountData { key: key(8), mint: key(3), owner: key(1), amount: 1 },
        offer_key: key(6),
        offer,
    };
    assert!(good.validate().is_ok());
    let mut foreign = good;
    foreign.buyer = key(4);
    assert_eq!(foreign.validate().unwrap_err(), MarketplaceError::ConstraintRaw);
}

#[test]
fn initialize_by_expected_authority() {
    let mut ctx = InitializeProgramState {
        program_state: ProgramState { admin: key(0), minting_price: 0 },
        admin: key(1),
        upgrade_authority: Some(key(1)),
    };
    let ev = initialize_program_state(&mut ctx, 5_000).unwrap();
    assert!(ctx.program_state.admin.same_as(&key(1)));
    assert_eq!(ctx.program_state.minting_price, 5_000);
    assert_eq!(ev.minting_price, 5_000);
    assert!(ev.admin.same_as(&key(1)));
}

#[test]
fn initialize_by_stranger_refused() {
    let mut ctx = InitializeProgramState {
        program_state: ProgramState { admin: key(0), minting_price: 0 },
        admin: key(2),
        upgrade_authority: Some(key(1)),
    };
    assert_eq!(
        initialize_program_state(&mut ctx, 5_000).unwrap_err(),
        MarketplaceError::Program(ErrorCode::UnauthorizedProgramInitialization)
    );
    assert_eq!(ctx.program_state.minting_price, 0);
}

#[test]
fn minting_price_set_by_admin() {
    let mut ctx = SetMintingPrice { program_state: ProgramState { admin: key(1), minting_price: 10 }, admin: key(1) };
    assert!(ctx.validate().is_ok());
    set_minting_price(&mut ctx, 77);
    assert_eq!(ctx.program_state.minting_price, 77);
    assert!(ctx.program_state.admin.same_as(&key(1)));
    let stranger = SetMintingPrice { program_state: ProgramState { admin: key(1), minting_price: 10 }, admin: key(2) };
    assert_eq!(stranger.validate().unwrap_err(), MarketplaceError::Program(ErrorCode::Unauthorized));
    let reward = SetCleanupReward { program_state: ProgramState { admin: key(1), minting_price: 10 }, admin: key(2) };
    assert_eq!(reward.validate().unwrap_err(), MarketplaceError::Program(ErrorCode::Unauthorized));
}

#[test]
fn minting_fee_goes_to_admin() {
    let ctx = CreateNFT {
        authority: key(1),
        payer: key(1),
        mint: key(3),
        program_state: ProgramState { admin: key(9), minting_price: 10 },
        mint_fee_account: key(9),
    };
    assert!(ctx.validate().is_ok());
    let wrong = CreateNFT { mint_fee_account: key(8), ..ctx };
    assert_eq!(wrong.validate().unwrap_err(), MarketplaceError::ConstraintAddress);
}

#[test]
fn initialize_without_upgrade_authority_refused() {
    let mut ctx = InitializeProgramState {
        program_state: ProgramState { admin: key(0), minting_price: 0 },
        admin: key(1),
        upgrade_authority: None,
    };
    assert_eq!(
        initialize_program_state(&mut ctx, 5_000).unwrap_err(),
        MarketplaceError::Program(ErrorCode::UnauthorizedProgramInitialization)
    );
}
