use vstd::prelude::*;
use crate::pubkey::Pubkey;
use crate::state::CreatorEventData;

verus! {

/// Reported when a single NFT is minted.
#[derive(Debug, Clone)]
pub struct NftMinted {
    pub id: u64,
    pub mint: Pubkey,
    pub payer: Pubkey,
    pub authority: Pubkey,
    pub name: String,
    pub symbol: String,
    pub uri: String,
    pub royalty_percent: u16,
    pub seller_fee_basis_points: u16,
    pub creators: Vec<CreatorEventData>,
}

/// Reported when an NFT is minted into a collection.
#[derive(Debug, Clone)]
pub struct CollectionNftMinted {
    pub id_nft: u64,
    pub mint: Pubkey,
    pub payer: Pubkey,
    pub authority: Pubkey,
    pub name: String,
    pub symbol: String,
    pub uri: String,
    pub collection: Pubkey,
    pub royalty_percent: u16,
    pub seller_fee_basis_points: u16,
    pub creators: Vec<CreatorEventData>,
}

/// Reported when a collection is created.
#[derive(Debug, Clone)]
pub struct CollectionCreated {
    pub id_collection: u64,
    pub mint: Pubkey,
    pub authority: Pubkey,
    pub payer: Pubkey,
    pub name: String,
    pub symbol: String,
    pub uri: String,
    pub created_at: i64,
}

/// Reported when an NFT is listed.
#[derive(Debug, Clone, Copy)]
pub struct NftListed {
    pub listing_id: u64,
    pub mint: Pubkey,
    pub seller: Pubkey,
    pub collection_mint: Pubkey,
    pub price: u64,
    pub listed_at: i64,
}

/// Reported when a listing's price changes.
#[derive(Debug, Clone, Copy)]
pub struct ListingPriceUpdated {
    pub listing: Pubkey,
    pub seller: Pubkey,
    pub old_price: u64,
    pub new_price: u64,
}

/// Reported when a listing is withdrawn.
#[derive(Debug, Clone, Copy)]
pub struct ListingCanceled {
    pub listing: Pubkey,
    pub mint: Pubkey,
    pub seller: Pubkey,
}

/// Reported when a listed NFT is bought.
#[derive(Debug, Clone, Copy)]
pub struct NftPurchased {
    pub listing: Pubkey,
    pub mint: Pubkey,
    pub buyer: Pubkey,
    pub seller: Pubkey,
    pub price: u64,
    pub marketplace_fee: u64,
}

/// Reported when an offer is made.
#[derive(Debug, Clone, Copy)]
pub struct OfferMade {
    pub offer_id: u64,
    pub mint: Pubkey,
    pub buyer: Pubkey,
    pub price: u64,
    pub expiry_time: i64,
    pub created_at: i64,
}

/// Reported when an offer is accepted.
#[derive(Debug, Clone, Copy)]
pub struct OfferAccepted {
    pub offer: Pubkey,
    pub mint: Pubkey,
    pub buyer: Pubkey,
    pub seller: Pubkey,
    pub price: u64,
    pub marketplace_fee: u64,
}

/// Reported when an offer is withdrawn.
#[derive(Debug, Clone, Copy)]
pub struct OfferCanceled {
    pub offer: Pubkey,
    pub mint: Pubkey,
    pub buyer: Pubkey,
}

/// Reported when the program's settings are created.
#[derive(Debug, Clone, Copy)]
pub struct ProgramStateInitialized {
    pub admin: Pubkey,
    pub minting_price: u64,
}

/// Reported when a collection's item count changes.
#[derive(Debug, Clone, Copy)]
pub struct CollectionItemCountUpdated {
    pub collection_mint: Pubkey,
    pub total_items: u64,
    pub timestamp: i64,
}

} // verus!
