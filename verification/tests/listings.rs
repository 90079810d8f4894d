use anchor_lang::prelude::Pubkey as SolanaPubkey;
use anchor_lang::AnchorSerialize;
use mpl_token_metadata::accounts::Metadata;
use mpl_token_metadata::types::{Collection, Key};
use nft_marketplace_program::{
    buy_nft, cancel_listing, check_listed_collection, list_nft, update_listing_price, BuyNFT, CancelListing,
    CollectionRef, ErrorCode, ListNFT, Listing, MarketplaceError, MetadataFields, MintAccount, Pubkey,
    TokenAccountData, UpdateListing,
};

fn key(b: u8) -> Pubkey {
    Pubkey::new_from_array([b; 32])
}

fn metadata_bytes(update_authority: Pubkey, collection: Option<(Pubkey, bool)>) -> Vec<u8> {
    let m = Metadata {
        key: Key::MetadataV1,
        update_authority: SolanaPubkey::new_from_array(update_authority.to_bytes()),
        mint: SolanaPubkey::new_from_array([9; 32]),
        name: "Item".to_string(),
        symbol: "ITM".to_string(),
        uri: "https://example.com/item.json".to_string(),
        seller_fee_basis_points: 500,
        creators: None,
        primary_sale_happened: false,
        is_mutable: true,
        edition_nonce: None,
        token_standard: None,
        collection: collection.map(|(k, verified)| Collection { verified, key: SolanaPubkey::new_from_array(k.to_bytes()) }),
        uses: None,
        collection_details: None,
        programmable_config: None,
    };
    m.try_to_vec().unwrap()
}

fn active_listing(seller: Pubkey, mint: Pubkey, price: u64) -> Listing {
    Listing { seller, mint, collection_mint: key(0), price, is_active: true, listed_at: 100, bump: 254 }
}

fn buy_ctx(buyer: Pubkey, seller: Pubkey, price: u64) -> BuyNFT {
    BuyNFT {
        buyer,
        seller,
        marketplace_authority: key(7),
        mint: key(3),
        seller_token_account: TokenAccountData { key: key(8), mint: key(3), owner: seller, amount: 1 },
        buyer_token_account: key(10),
        listing_key: key(5),
        listing: active_listing(seller, key(3), price),
    }
}

fn list_ctx(metadata: Vec<u8>) -> ListNFT {
    ListNFT {
        seller: key(1),
        mint: MintAccount { key: key(3), decimals: 0, supply: 1 },
        seller_token_account: TokenAccountData { key: key(8), mint: key(3), owner: key(1), amount: 1 },
        nft_metadata: metadata,
        listing_key: key(5),
        listing: Listing { seller: key(0), mint: key(0), collection_mint: key(0), price: 0, is_active: false, listed_at: 0, bump: 0 },
        listing_bump: 253,
    }
}

fn program_err(e: ErrorCode) -> MarketplaceError {
    MarketplaceError::Program(e)
}

#[test]
fn buy_splits_price_between_seller_and_marketplace() {
    let mut ctx = buy_ctx(key(2), key(1), 1_000_000);
    let p = buy_nft(&mut ctx, 250).unwrap();
    assert_eq!(p.event.marketplace_fee, 25_000);
    assert_eq!(p.seller_payment.amount, 975_000);
    assert!(p.seller_payment.from.same_as(&key(2)));
    assert!(p.seller_payment.to.same_as(&key(1)));
    let fee = p.fee_payment.unwrap();
    assert_eq!(fee.amount, 25_000);
    assert!(fee.from.same_as(&key(2)));
    assert!(fee.to.same_as(&key(7)));
    assert_eq!(p.token_transfer.amount, 1);
    assert!(p.token_transfer.from.same_as(&key(8)));
    assert!(p.token_transfer.to.same_as(&key(10)));
    assert!(p.token_transfer.authority.same_as(&key(1)));
    assert!(!ctx.listing.is_active);
    assert_eq!(ctx.listing.price, 1_000_000);
    assert_eq!(p.event.price, 1_000_000);
    assert_eq!(p.event.marketplace_fee, 25_000);
    assert!(p.event.buyer.same_as(&key(2)));
    assert!(p.event.seller.same_as(&key(1)));
    assert!(p.event.listing.same_as(&key(5)));
    assert!(p.event.mint.same_as(&key(3)));
}

#[test]
fn buy_without_fee_makes_no_fee_transfer() {
    let mut ctx = buy_ctx(key(2), key(1), 999);
    let p = buy_nft(&mut ctx, 1).unwrap();
    assert_eq!(p.event.marketplace_fee, 0);
    assert_eq!(p.seller_payment.amount, 999);
    assert!(p.fee_payment.is_none());
    assert_eq!(p.token_transfer.amount, 1);
}

#[test]
fn buy_refuses_inactive_listing() {
    let mut ctx = buy_ctx(key(2), key(1), 10);
    ctx.listing.is_active = false;
    assert_eq!(buy_nft(&mut ctx, 100).unwrap_err(), program_err(ErrorCode::ListingNotActive));
    assert!(!ctx.listing.is_active);
}

#[test]
fn buy_refuses_seller_as_buyer() {
    let mut ctx = buy_ctx(key(1), key(1), 10);
    assert_eq!(buy_nft(&mut ctx, 100).unwrap_err(), program_err(ErrorCode::SellerCannotBuy));
    assert!(ctx.listing.is_active);
}

#[test]
fn buy_refuses_fee_rate_over_whole() {
    let mut ctx = buy_ctx(key(2), key(1), 10);
    assert_eq!(buy_nft(&mut ctx, 10_001).unwrap_err(), program_err(ErrorCode::InvalidFeeBasisPoints));
    assert!(ctx.listing.is_active);
}

#[test]
fn bought_listing_cannot_be_bought_again() {
    let mut ctx = buy_ctx(key(2), key(1), 10);
    buy_nft(&mut ctx, 100).unwrap();
    assert_eq!(buy_nft(&mut ctx, 100).unwrap_err(), program_err(ErrorCode::ListingNotActive));
}

#[test]
fn buy_accounts_must_match_listing() {
    let good = buy_ctx(key(2), key(1), 10);
    assert!(good.validate().is_ok());
    let mut wrong_mint = buy_ctx(key(2), key(1), 10);
    wrong_mint.listing.mint = key(4);
    assert_eq!(wrong_mint.validate().unwrap_err(), MarketplaceError::ConstraintRaw);
    let mut empty = buy_ctx(key(2), key(1), 10);
    empty.seller_token_account.amount = 0;
    assert_eq!(empty.validate().unwrap_err(), MarketplaceError::ConstraintRaw);
}

#[test]
fn cancel_closes_listing_and_reports() {
    let mut ctx = CancelListing { seller: key(1), listing_key: key(5), listing: active_listing(key(1), key(3), 10) };
    let ev = cancel_listing(&mut ctx).unwrap();
    assert!(!ctx.listing.is_active);
    assert!(ev.listing.same_as(&key(5)));
    assert!(ev.mint.same_as(&key(3)));
    assert!(ev.seller.same_as(&key(1)));
    assert_eq!(cancel_listing(&mut ctx).unwrap_err(), program_err(ErrorCode::ListingNotActive));
}

#[test]
fn cancel_refuses_other_seller() {
    let mut ctx = CancelListing { seller: key(2), listing_key: key(5), listing: active_listing(key(1), key(3), 10) };
    assert_eq!(ctx.validate().unwrap_err(), MarketplaceError::ConstraintRaw);
    assert_eq!(cancel_listing(&mut ctx).unwrap_err(), program_err(ErrorCode::UnauthorizedSeller));
    assert!(ctx.listing.is_active);
}

#[test]
fn cancelled_listing_cannot_be_bought() {
    let mut cancel = CancelListing { seller: key(1), listing_key: key(5), listing: active_listing(key(1), key(3), 10) };
    cancel_listing(&mut cancel).unwrap();
    let mut buy = buy_ctx(key(2), key(1), 10);
    buy.listing = cancel.listing;
    assert_eq!(buy_nft(&mut buy, 0).unwrap_err(), program_err(ErrorCode::ListingNotActive));
}

#[test]
fn update_changes_only_price() {
    let mut ctx = UpdateListing { seller: key(1), listing_key: key(5), listing: active_listing(key(1), key(3), 10) };
    assert!(ctx.validate().is_ok());
    let ev = update_listing_price(&mut ctx, 42).unwrap();
    assert_eq!(ctx.listing.price, 42);
    assert!(ctx.listing.is_active);
    assert_eq!(ctx.listing.listed_at, 100);
    assert_eq!(ev.old_price, 10);
    assert_eq!(ev.new_price, 42);
    let mut cancel = CancelListing { seller: key(1), listing_key: key(5), listing: ctx.listing };
    assert!(cancel_listing(&mut cancel).is_ok());
}

#[test]
fn update_refuses_inactive_or_foreign_listing() {
    let mut inactive = UpdateListing { seller: key(1), listing_key: key(5), listing: active_listing(key(1), key(3), 10) };
    inactive.listing.is_active = false;
    assert_eq!(update_listing_price(&mut inactive, 5).unwrap_err(), program_err(ErrorCode::ListingNotActive));
    assert_eq!(inactive.listing.price, 10);
    let mut foreign = UpdateListing { seller: key(2), listing_key: key(5), listing: active_listing(key(1), key(3), 10) };
    assert_eq!(update_listing_price(&mut foreign, 5).unwrap_err(), program_err(ErrorCode::UnauthorizedSeller));
}

#[test]
fn list_in_verified_collection() {
    let mut ctx = list_ctx(metadata_bytes(key(6), Some((key(4), true))));
    assert!(ctx.validate().is_ok());
    let ev = list_nft(&mut ctx, 500, 77, key(4), 1_700_000_000).unwrap();
    assert!(ctx.listing.is_active);
    assert!(ctx.listing.seller.same_as(&key(1)));
    assert!(ctx.listing.mint.same_as(&key(3)));
    assert!(ctx.listing.collection_mint.same_as(&key(4)));
    assert_eq!(ctx.listing.price, 500);
    assert_eq!(ctx.listing.listed_at, 1_700_000_000);
    assert_eq!(ctx.listing.bump, 253);
    assert_eq!(ev.listing_id, 77);
    assert_eq!(ev.price, 500);
    assert_eq!(ev.listed_at, 1_700_000_000);
}

#[test]
fn list_without_collection_under_unset_key() {
    let mut ctx = list_ctx(metadata_bytes(key(6), None));
    assert!(list_nft(&mut ctx, 500, 1, Pubkey::zeroed(), 10).is_ok());
}

#[test]
fn list_refuses_wrong_collection() {
    let mut other = list_ctx(metadata_bytes(key(6), Some((key(4), true))));
    assert_eq!(list_nft(&mut other, 500, 1, key(5), 10).unwrap_err(), program_err(ErrorCode::NFTNotInCollection));
    assert!(!other.listing.is_active);
    let mut none = list_ctx(metadata_bytes(key(6), None));
    assert_eq!(list_nft(&mut none, 500, 1, key(4), 10).unwrap_err(), program_err(ErrorCode::NFTNotInCollection));
}

#[test]
fn list_refuses_unverified_collection() {
    let mut ctx = list_ctx(metadata_bytes(key(6), Some((key(4), false))));
    assert_eq!(
        list_nft(&mut ctx, 500, 1, key(4), 10).unwrap_err(),
        program_err(ErrorCode::CollectionVerificationFailed)
    );
}

#[test]
fn list_refuses_undecodable_metadata() {
    let mut ctx = list_ctx(vec![4, 1, 2]);
    assert_eq!(list_nft(&mut ctx, 500, 1, key(4), 10).unwrap_err(), MarketplaceError::BorshIoError);
}

#[test]
fn list_refuses_token_account_problems() {
    let mut empty = list_ctx(metadata_bytes(key(6), None));
    empty.seller_token_account.amount = 0;
    assert_eq!(list_nft(&mut empty, 1, 1, Pubkey::zeroed(), 10).unwrap_err(), program_err(ErrorCode::SellerDoesNotOwnNFT));
    assert_eq!(empty.validate().unwrap_err(), program_err(ErrorCode::SellerDoesNotOwnNFT));
    let mut other_mint = list_ctx(metadata_bytes(key(6), None));
    other_mint.seller_token_account.mint = key(9);
    assert_eq!(list_nft(&mut other_mint, 1, 1, Pubkey::zeroed(), 10).unwrap_err(), program_err(ErrorCode::InvalidNFT));
    let mut other_owner = list_ctx(metadata_bytes(key(6), None));
    other_owner.seller_token_account.owner = key(9);
    assert_eq!(list_nft(&mut other_owner, 1, 1, Pubkey::zeroed(), 10).unwrap_err(), program_err(ErrorCode::UnauthorizedSeller));
    assert_eq!(other_owner.validate().unwrap_err(), program_err(ErrorCode::UnauthorizedSeller));
}

#[test]
fn list_accounts_need_single_token_mint() {
    let mut divisible = list_ctx(Vec::new());
    divisible.mint.decimals = 6;
    assert_eq!(divisible.validate().unwrap_err(), program_err(ErrorCode::InvalidNFT));
    let mut many = list_ctx(Vec::new());
    many.mint.supply = 2;
    assert_eq!(many.validate().unwrap_err(), program_err(ErrorCode::InvalidNFT));
}

#[test]
fn collection_check_on_decoded_metadata() {
    let m = MetadataFields { update_authority: key(6), collection: Some(CollectionRef { key: key(4), verified: true }) };
    assert!(check_listed_collection(&m, &key(4)).is_ok());
    assert_eq!(check_listed_collection(&m, &key(3)).unwrap_err(), program_err(ErrorCode::NFTNotInCollection));
    let none = MetadataFields { update_authority: key(6), collection: None };
    assert!(check_listed_collection(&none, &Pubkey::zeroed()).is_ok());
}
