use anchor_lang::prelude::Pubkey as SolanaPubkey;
use anchor_lang::AnchorSerialize;
use mpl_token_metadata::accounts::Metadata;
use mpl_token_metadata::types::Key;
use nft_marketplace_program::{
    create_collection, mint_and_verify_to_collection, mint_to_collection, set_and_verify_collection,
    verify_collection_authority, verify_nft_in_collection, CreateCollection, ErrorCode, MarketplaceError,
    MintAndVerifyToCollection, MintToCollection, ProgramState, Pubkey, SetAndVerifyCollectionCtx, UserCollection,
    VerifyCollectionAuthority, VerifyNFTInCollection,
};

fn key(b: u8) -> Pubkey {
    Pubkey::new_from_array([b; 32])
}

fn metadata_bytes(update_authority: Pubkey) -> Vec<u8> {
    let m = Metadata {
        key: Key::MetadataV1,
        update_authority: SolanaPubkey::new_from_array(update_authority.to_bytes()),
        mint: SolanaPubkey::new_from_array([9; 32]),
        name: "Collection".to_string(),
        symbol: "COL".to_string(),
        uri: "https://example.com/c.json".to_string(),
        seller_fee_basis_points: 0,
        creators: None,
        primary_sale_happened: false,
        is_mutable: true,
        edition_nonce: None,
        token_standard: None,
        collection: None,
        uses: None,
        collection_details: None,
        programmable_config: None,
    };
    m.try_to_vec().unwrap()
}

fn blank_record() -> UserCollection {
    UserCollection {
        authority: Pubkey::zeroed(),
        collection_mint: Pubkey::zeroed(),
        name: String::new(),
        symbol: String::new(),
        uri: String::new(),
        created_at: 0,
        total_items: 0,
        verified: false,
        bump: 0,
    }
}

fn mint_verify_ctx(record: UserCollection) -> MintAndVerifyToCollection {
    let (record_key, record_bump) = UserCollection::find_collection_record(&key(11), &key(3), &key(5)).unwrap();
    MintAndVerifyToCollection {
        program_id: key(11),
        authority: key(1),
        payer: key(2),
        collection_authority: key(3),
        mint: key(4),
        program_state: ProgramState { admin: key(9), minting_price: 1_500 },
        mint_fee_account: key(9),
        collection_mint: key(5),
        user_collection_key: record_key,
        user_collection: record,
        user_collection_bump: record_bump,
    }
}

#[test]
fn create_collection_records_and_plans() {
    let (record_key, record_bump) = UserCollection::find_collection_record(&key(11), &key(1), &key(5)).unwrap();
    let mut ctx = CreateCollection {
        program_id: key(11),
        authority: key(1),
        payer: key(2),
        mint: key(5),
        user_collection_key: record_key,
        user_collection: blank_record(),
        user_collection_bump: record_bump,
    };
    assert!(ctx.validate().is_ok());
    let plan = create_collection(&mut ctx, 3, "Apes".to_string(), "APE".to_string(), "https://a".to_string(), 1_234);
    assert!(ctx.user_collection.authority.same_as(&key(1)));
    assert!(ctx.user_collection.collection_mint.same_as(&key(5)));
    assert_eq!(ctx.user_collection.name, "Apes");
    assert_eq!(ctx.user_collection.total_items, 0);
    assert!(ctx.user_collection.verified);
    assert_eq!(ctx.user_collection.created_at, 1_234);
    assert_eq!(ctx.user_collection.bump, record_bump);
    assert_eq!(plan.token.amount, 1);
    assert_eq!(plan.token.max_supply, Some(0));
    assert_eq!(plan.token.metadata.seller_fee_basis_points, 0);
    assert!(plan.token.metadata.collection.is_none());
    let creators = plan.token.metadata.creators.unwrap();
    assert_eq!(creators.len(), 1);
    assert!(creators[0].address.same_as(&key(1)));
    assert_eq!(creators[0].share, 100);
    assert!(creators[0].verified);
    assert_eq!(plan.event.id_collection, 3);
    assert_eq!(plan.event.symbol, "APE");
    assert_eq!(plan.event.created_at, 1_234);
}

#[test]
fn mint_to_collection_plans_item() {
    let ctx = MintToCollection {
        authority: key(1),
        payer: key(2),
        mint: key(4),
        program_state: ProgramState { admin: key(9), minting_price: 700 },
        mint_fee_account: key(9),
        collection: key(5),
    };
    let m = mint_to_collection(&ctx, 8, "Ape #8".to_string(), "APE".to_string(), "https://a/8".to_string(), 10).unwrap();
    assert_eq!(m.fee_payment.amount, 700);
    assert!(m.fee_payment.from.same_as(&key(2)));
    assert!(m.fee_payment.to.same_as(&key(9)));
    assert_eq!(m.token.amount, 1);
    assert_eq!(m.token.max_supply, Some(1));
    assert_eq!(m.token.metadata.seller_fee_basis_points, 1_000);
    let c = m.token.metadata.collection.unwrap();
    assert!(c.key.same_as(&key(5)));
    assert!(!c.verified);
    assert!(m.token.metadata.creators.unwrap()[0].address.same_as(&key(2)));
    assert_eq!(m.event.royalty_percent, 10);
    assert_eq!(m.event.seller_fee_basis_points, 1_000);
    assert_eq!(m.event.creators.len(), 1);
    assert!(m.event.creators[0].address.same_as(&key(2)));
}

#[test]
fn mint_to_collection_refuses_high_royalty() {
    let ctx = MintToCollection {
        authority: key(1),
        payer: key(2),
        mint: key(4),
        program_state: ProgramState { admin: key(9), minting_price: 700 },
        mint_fee_account: key(9),
        collection: key(5),
    };
    let r = mint_to_collection(&ctx, 8, "A".to_string(), "B".to_string(), "C".to_string(), 60);
    assert_eq!(r.unwrap_err(), MarketplaceError::Program(ErrorCode::RoyaltyTooHigh));
}

#[test]
fn first_verified_mint_starts_record() {
    let mut ctx = mint_verify_ctx(blank_record());
    let m = mint_and_verify_to_collection(&mut ctx, 1, "Ape #1".to_string(), "APE".to_string(), "https://a/1".to_string(), 5, 50).unwrap();
    assert!(ctx.user_collection.authority.same_as(&key(3)));
    assert!(ctx.user_collection.collection_mint.same_as(&key(5)));
    assert_eq!(ctx.user_collection.name, "Ape #1");
    assert_eq!(ctx.user_collection.total_items, 1);
    assert_eq!(ctx.user_collection.created_at, 50);
    assert_eq!(ctx.user_collection.bump, ctx.user_collection_bump);
    assert_eq!(m.fee_payment.amount, 1_500);
    assert!(m.fee_payment.to.same_as(&key(9)));
    assert_eq!(m.count_event.total_items, 1);
    assert_eq!(m.count_event.timestamp, 50);
    assert_eq!(m.event.seller_fee_basis_points, 500);
}

#[test]
fn later_verified_mints_count_up() {
    let mut ctx = mint_verify_ctx(blank_record());
    mint_and_verify_to_collection(&mut ctx, 1, "Ape #1".to_string(), "APE".to_string(), "u1".to_string(), 5, 50).unwrap();
    mint_and_verify_to_collection(&mut ctx, 2, "Ape #2".to_string(), "APE".to_string(), "u2".to_string(), 5, 60).unwrap();
    assert_eq!(ctx.user_collection.total_items, 2);
    assert_eq!(ctx.user_collection.name, "Ape #1");
    assert_eq!(ctx.user_collection.created_at, 50);
}

#[test]
fn verified_mint_refuses_count_overflow() {
    let mut record = blank_record();
    record.authority = key(3);
    record.total_items = u64::MAX;
    let mut ctx = mint_verify_ctx(record);
    let r = mint_and_verify_to_collection(&mut ctx, 1, "A".to_string(), "B".to_string(), "C".to_string(), 5, 50);
    assert_eq!(r.unwrap_err(), MarketplaceError::Program(ErrorCode::ArithmeticOverflow));
    assert_eq!(ctx.user_collection.total_items, u64::MAX);
}

#[test]
fn verified_mint_refuses_high_royalty() {
    let mut ctx = mint_verify_ctx(blank_record());
    let r = mint_and_verify_to_collection(&mut ctx, 1, "A".to_string(), "B".to_string(), "C".to_string(), 51, 50);
    assert_eq!(r.unwrap_err(), MarketplaceError::Program(ErrorCode::RoyaltyTooHigh));
    assert!(ctx.user_collection.authority.is_default());
}

#[test]
fn verify_requires_update_authority() {
    let ok = VerifyNFTInCollection { collection_authority: key(3), collection_metadata: metadata_bytes(key(3)) };
    assert!(verify_nft_in_collection(&ok).is_ok());
    let other = VerifyNFTInCollection { collection_authority: key(4), collection_metadata: metadata_bytes(key(3)) };
    assert_eq!(
        verify_nft_in_collection(&other).unwrap_err(),
        MarketplaceError::Program(ErrorCode::UnauthorizedCollectionUpdateAuthority)
    );
    let garbage = VerifyNFTInCollection { collection_authority: key(3), collection_metadata: vec![1, 2, 3] };
    assert_eq!(verify_nft_in_collection(&garbage).unwrap_err(), MarketplaceError::BorshIoError);
}

#[test]
fn set_and_verify_passes_collection_key() {
    let ctx = SetAndVerifyCollectionCtx { collection_authority: key(3), collection_metadata: metadata_bytes(key(3)) };
    let record = set_and_verify_collection(&ctx, key(5)).unwrap();
    assert!(record.unwrap().same_as(&key(5)));
    let other = SetAndVerifyCollectionCtx { collection_authority: key(4), collection_metadata: metadata_bytes(key(3)) };
    assert_eq!(
        set_and_verify_collection(&other, key(5)).unwrap_err(),
        MarketplaceError::Program(ErrorCode::UnauthorizedCollectionUpdateAuthority)
    );
}

#[test]
fn collection_authority_owns_metadata() {
    let ok = VerifyCollectionAuthority { collection_authority: key(3), collection_metadata_owner: key(3) };
    assert!(verify_collection_authority(&ok).is_ok());
    let other = VerifyCollectionAuthority { collection_authority: key(3), collection_metadata_owner: key(4) };
    assert_eq!(
        verify_collection_authority(&other).unwrap_err(),
        MarketplaceError::Program(ErrorCode::InvalidCollectionAuthority)
    );
}

#[test]
fn collection_record_must_be_at_derived_address() {
    let (record_key, record_bump) = UserCollection::find_collection_record(&key(11), &key(1), &key(5)).unwrap();
    let misplaced = CreateCollection {
        program_id: key(11),
        authority: key(1),
        payer: key(2),
        mint: key(5),
        user_collection_key: key(12),
        user_collection: blank_record(),
        user_collection_bump: record_bump,
    };
    assert_eq!(misplaced.validate().unwrap_err(), MarketplaceError::ConstraintSeeds);
    let wrong_bump = CreateCollection { user_collection_key: record_key, user_collection_bump: record_bump.wrapping_sub(1), ..misplaced };
    assert_eq!(wrong_bump.validate().unwrap_err(), MarketplaceError::ConstraintSeeds);
    let mut verified = mint_verify_ctx(blank_record());
    assert!(verified.validate().is_ok());
    verified.user_collection_key = key(12);
    assert_eq!(verified.validate().unwrap_err(), MarketplaceError::ConstraintSeeds);
    verified.mint_fee_account = key(8);
    assert_eq!(verified.validate().unwrap_err(), MarketplaceError::ConstraintAddress);
}

#[test]
fn many_verified_mints_count_each_success() {
    let mut ctx = mint_verify_ctx(blank_record());
    for i in 0..5u64 {
        let r = mint_and_verify_to_collection(&mut ctx, i, format!("Ape #{}", i), "APE".to_string(), "u".to_string(), 5, 100);
        assert!(r.is_ok());
        let failed = mint_and_verify_to_collection(&mut ctx, 99, "x".to_string(), "y".to_string(), "z".to_string(), 90, 100);
        assert!(failed.is_err());
    }
    assert_eq!(ctx.user_collection.total_items, 5);
}

#[test]
fn collection_record_address_is_derived() {
    let program_id = key(11);
    let authority = key(3);
    let mint = key(5);
    let found = UserCollection::get_collection_by_authority(&program_id, &authority, &mint).unwrap();
    let (expected, _bump) = SolanaPubkey::find_program_address(
        &[b"nft_marketplace", b"user_collection", &authority.to_bytes(), &mint.to_bytes()],
        &SolanaPubkey::new_from_array(program_id.to_bytes()),
    );
    assert_eq!(found.to_bytes(), expected.to_bytes());
    assert!(!found.same_as(&program_id));
    let other = UserCollection::get_collection_by_authority(&program_id, &key(4), &mint).unwrap();
    assert!(!other.same_as(&found));
}
