use vstd::prelude::*;
use crate::errors::{ErrorCode, MarketplaceError};
use crate::pubkey::Pubkey;
use crate::state::{collection_record_address, Listing, Offer, ProgramState, UserCollection};

verus! {

/// The failure of a check that reports one of the program's own codes.
pub open spec fn fail(e: ErrorCode) -> Option<MarketplaceError> {
    Some(MarketplaceError::Program(e))
}

/// A token mint as the marketplace reads it.
#[derive(Debug, Clone, Copy)]
pub struct MintAccount {
    pub key: Pubkey,
    pub decimals: u8,
    pub supply: u64,
}

/// A token account as the marketplace reads it.
#[derive(Debug, Clone, Copy)]
pub struct TokenAccountData {
    pub key: Pubkey,
    pub mint: Pubkey,
    pub owner: Pubkey,
    pub amount: u64,
}

/// Whether `key` is at the address that a constraint requires.
fn require_key(key: &Pubkey, expected: &Pubkey, err: MarketplaceError) -> (r: Result<(), MarketplaceError>)
    ensures
        r is Ok <==> key@ == expected@,
        r matches Err(e) ==> e == err,
{
    if key.same_as(expected) {
        Ok(())
    } else {
        Err(err)
    }
}

/// Where the admin's minting fee goes: it must be the admin's address.
pub open spec fn fee_account_error(program_state: ProgramState, mint_fee_account: Pubkey) -> Option<MarketplaceError> {
    if mint_fee_account@ != program_state.admin@ {
        Some(MarketplaceError::ConstraintAddress)
    } else {
        None
    }
}

/// Accounts for minting a single NFT.
#[derive(Debug, Clone, Copy)]
pub struct CreateNFT {
    pub authority: Pubkey,
    pub payer: Pubkey,
    pub mint: Pubkey,
    pub program_state: ProgramState,
    pub mint_fee_account: Pubkey,
}

impl CreateNFT {
    /// Checks that the fee account is the admin's.
    pub fn validate(&self) -> (r: Result<(), MarketplaceError>)
        ensures
            r is Err <==> fee_account_error(self.program_state, self.mint_fee_account) is Some,
            r matches Err(e) ==> fee_account_error(self.program_state, self.mint_fee_account) == Some(e),
    {
        require_key(&self.mint_fee_account, &self.program_state.admin, MarketplaceError::ConstraintAddress)
    }
}

/// Accounts for creating a collection, with the program's id and the
/// address of the collection record.
#[derive(Debug, Clone)]
pub struct CreateCollection {
    pub program_id: Pubkey,
    pub authority: Pubkey,
    pub payer: Pubkey,
    pub mint: Pubkey,
    pub user_collection_key: Pubkey,
    pub user_collection: UserCollection,
    pub user_collection_bump: u8,
}

/// The collection record must be at the address derived for its authority
/// and mint, with the bump seed found for it.
pub open spec fn record_seeds_error(program_id: Pubkey, authority: Pubkey, collection_mint: Pubkey, record_key: Pubkey, record_bump: u8) -> Option<MarketplaceError> {
    if collection_record_address(program_id@, authority@, collection_mint@) == Some((record_key@, record_bump)) {
        None
    } else {
        Some(MarketplaceError::ConstraintSeeds)
    }
}

/// Checks that a collection record is at its derived address.
fn require_record_address(program_id: &Pubkey, authority: &Pubkey, collection_mint: &Pubkey, record_key: &Pubkey, record_bump: u8) -> (r: Result<(), MarketplaceError>)
    ensures
        r is Err <==> record_seeds_error(*program_id, *authority, *collection_mint, *record_key, record_bump) is Some,
        r matches Err(e) ==> record_seeds_error(*program_id, *authority, *collection_mint, *record_key, record_bump) == Some(e),
{
    match UserCollection::find_collection_record(program_id, authority, collection_mint) {
        Some((key, bump)) => {
            if key.same_as(record_key) && bump == record_bump {
                Ok(())
            } else {
                Err(MarketplaceError::ConstraintSeeds)
            }
        },
        None => Err(MarketplaceError::ConstraintSeeds),
    }
}

impl CreateCollection {
    /// Checks that the collection record is at its derived address.
    pub fn validate(&self) -> (r: Result<(), MarketplaceError>)
        ensures
            r is Err <==> record_seeds_error(self.program_id, self.authority, self.mint, self.user_collection_key, self.user_collection_bump) is Some,
            r matches Err(e) ==> record_seeds_error(self.program_id, self.authority, self.mint, self.user_collection_key, self.user_collection_bump) == Some(e),
    {
        require_record_address(&self.program_id, &self.authority, &self.mint, &self.user_collection_key, self.user_collection_bump)
    }
}

/// Accounts for minting an NFT into a collection.
#[derive(Debug, Clone, Copy)]
pub struct MintToCollection {
    pub authority: Pubkey,
    pub payer: Pubkey,
    pub mint: Pubkey,
    pub program_state: ProgramState,
    pub mint_fee_account: Pubkey,
    pub collection: Pubkey,
}

impl MintToCollection {
    /// Checks that the fee account is the admin's.
    pub fn validate(&self) -> (r: Result<(), MarketplaceError>)
        ensures
            r is Err <==> fee_account_error(self.program_state, self.mint_fee_account) is Some,
            r matches Err(e) ==> fee_account_error(self.program_state, self.mint_fee_account) == Some(e),
    {
        require_key(&self.mint_fee_account, &self.program_state.admin, MarketplaceError::ConstraintAddress)
    }
}

/// Accounts for minting an NFT into a collection and verifying it there,
/// with the program's id and the address of the collection record.
#[derive(Debug, Clone)]
pub struct MintAndVerifyToCollection {
    pub program_id: Pubkey,
    pub authority: Pubkey,
    pub payer: Pubkey,
    pub collection_authority: Pubkey,
    pub mint: Pubkey,
    pub program_state: ProgramState,
    pub mint_fee_account: Pubkey,
    pub collection_mint: Pubkey,
    pub user_collection_key: Pubkey,
    pub user_collection: UserCollection,
    pub user_collection_bump: u8,
}

/// The first account constraint of a verified mint that fails: the fee
/// account is the admin's, and the collection record is at its derived
/// address.
pub open spec fn mint_and_verify_accounts_error(ctx: MintAndVerifyToCollection) -> Option<MarketplaceError> {
    if fee_account_error(ctx.program_state, ctx.mint_fee_account) is Some {
        fee_account_error(ctx.program_state, ctx.mint_fee_account)
    } else {
        record_seeds_error(ctx.program_id, ctx.collection_authority, ctx.collection_mint, ctx.user_collection_key, ctx.user_collection_bump)
    }
}

impl MintAndVerifyToCollection {
    /// Checks that the fee account is the admin's and that the collection
    /// record is at its derived address.
    pub fn validate(&self) -> (r: Result<(), MarketplaceError>)
        ensures
            r is Err <==> mint_and_verify_accounts_error(*self) is Some,
            r matches Err(e) ==> mint_and_verify_accounts_error(*self) == Some(e),
    {
        require_key(&self.mint_fee_account, &self.program_state.admin, MarketplaceError::ConstraintAddress)?;
        require_record_address(&self.program_id, &self.collection_authority, &self.collection_mint, &self.user_collection_key, self.user_collection_bump)
    }
}

/// Accounts for verifying an NFT in its collection.
#[derive(Debug, Clone)]
pub struct VerifyNFTInCollection {
    pub collection_authority: Pubkey,
    pub collection_metadata: Vec<u8>,
}

/// Accounts for setting an NFT's collection and verifying it.
#[derive(Debug, Clone)]
pub struct SetAndVerifyCollectionCtx {
    pub collection_authority: Pubkey,
    pub collection_metadata: Vec<u8>,
}

/// Accounts for checking a collection authority: the signer and the
/// program that owns the collection's metadata account.
#[derive(Debug, Clone, Copy)]
pub struct VerifyCollectionAuthority {
    pub collection_authority: Pubkey,
    pub collection_metadata_owner: Pubkey,
}

/// Accounts for listing an NFT.
#[derive(Debug, Clone)]
pub struct ListNFT {
    pub seller: Pubkey,
    pub mint: MintAccount,
    pub seller_token_account: TokenAccountData,
    pub nft_metadata: Vec<u8>,
    pub listing_key: Pubkey,
    pub listing: Listing,
    pub listing_bump: u8,
}

/// The first account constraint of a listing that fails: the mint must be
/// a one-token, indivisible mint and the seller's token account must hold
/// that token.
pub open spec fn list_nft_accounts_error(ctx: ListNFT) -> Option<MarketplaceError> {
    if ctx.mint.decimals != 0 {
        fail(ErrorCode::InvalidNFT)
    } else if ctx.mint.supply != 1 {
        fail(ErrorCode::InvalidNFT)
    } else if ctx.seller_token_account.mint@ != ctx.mint.key@ {
        fail(ErrorCode::InvalidNFT)
    } else if ctx.seller_token_account.owner@ != ctx.seller@ {
        fail(ErrorCode::UnauthorizedSeller)
    } else if ctx.seller_token_account.amount != 1 {
        fail(ErrorCode::SellerDoesNotOwnNFT)
    } else {
        None
    }
}

impl ListNFT {
    /// Checks the account constraints of a listing, in order.
    pub fn validate(&self) -> (r: Result<(), MarketplaceError>)
        ensures
            r is Err <==> list_nft_accounts_error(*self) is Some,
            r matches Err(e) ==> list_nft_accounts_error(*self) == Some(e),
    {
        if self.mint.decimals != 0 {
            return Err(MarketplaceError::Program(ErrorCode::InvalidNFT));
        }
        if self.mint.supply != 1 {
            return Err(MarketplaceError::Program(ErrorCode::InvalidNFT));
        }
        require_key(&self.seller_token_account.mint, &self.mint.key, MarketplaceError::Program(ErrorCode::InvalidNFT))?;
        require_key(&self.seller_token_account.owner, &self.seller, MarketplaceError::Program(ErrorCode::UnauthorizedSeller))?;
        if self.seller_token_account.amount != 1 {
            return Err(MarketplaceError::Program(ErrorCode::SellerDoesNotOwnNFT));
        }
        Ok(())
    }
}

/// Accounts for changing a listing's price.
#[derive(Debug, Clone, Copy)]
pub struct UpdateListing {
    pub seller: Pubkey,
    pub listing_key: Pubkey,
    pub listing: Listing,
}

/// The listing must be the signer's.
pub open spec fn seller_accounts_error(seller: Pubkey, listing: Listing) -> Option<MarketplaceError> {
    if listing.seller@ != seller@ {
        Some(MarketplaceError::ConstraintRaw)
    } else {
        None
    }
}

impl UpdateListing {
    /// Checks that the listing is the signer's.
    pub fn validate(&self) -> (r: Result<(), MarketplaceError>)
        ensures
            r is Err <==> seller_accounts_error(self.seller, self.listing) is Some,
            r matches Err(e) ==> seller_accounts_error(self.seller, self.listing) == Some(e),
    {
        require_key(&self.listing.seller, &self.seller, MarketplaceError::ConstraintRaw)
    }
}

/// Accounts for withdrawing a listing.
#[derive(Debug, Clone, Copy)]
pub struct CancelListing {
    pub seller: Pubkey,
    pub listing_key: Pubkey,
    pub listing: Listing,
}

impl CancelListing {
    /// Checks that the listing is the signer's.
    pub fn validate(&self) -> (r: Result<(), MarketplaceError>)
        ensures
            r is Err <==> seller_accounts_error(self.seller, self.listing) is Some,
            r matches Err(e) ==> seller_accounts_error(self.seller, self.listing) == Some(e),
    {
        require_key(&self.listing.seller, &self.seller, MarketplaceError::ConstraintRaw)
    }
}

/// Accounts for buying a listed NFT.
#[derive(Debug, Clone, Copy)]
pub struct BuyNFT {
    pub buyer: Pubkey,
    pub seller: Pubkey,
    pub marketplace_authority: Pubkey,
    pub mint: Pubkey,
    pub seller_token_account: TokenAccountData,
    pub buyer_token_account: Pubkey,
    pub listing_key: Pubkey,
    pub listing: Listing,
}

/// The first account constraint of a purchase that fails: the seller's
/// token account holds the listed mint's one token, and the listing is of
/// that mint and by that seller.
pub open spec fn buy_nft_accounts_error(ctx: BuyNFT) -> Option<MarketplaceError> {
    if ctx.seller_token_account.mint@ != ctx.mint@ || ctx.seller_token_account.amount != 1
        || ctx.listing.mint@ != ctx.mint@ || ctx.listing.seller@ != ctx.seller@ {
        Some(MarketplaceError::ConstraintRaw)
    } else {
        None
    }
}

impl BuyNFT {
    /// Checks the account constraints of a purchase.
    pub fn validate(&self) -> (r: Result<(), MarketplaceError>)
        ensures
            r is Err <==> buy_nft_accounts_error(*self) is Some,
            r matches Err(e) ==> buy_nft_accounts_error(*self) == Some(e),
    {
        require_key(&self.seller_token_account.mint, &self.mint, MarketplaceError::ConstraintRaw)?;
        if self.seller_token_account.amount != 1 {
            return Err(MarketplaceError::ConstraintRaw);
        }
        require_key(&self.listing.mint, &self.mint, MarketplaceError::ConstraintRaw)?;
        require_key(&self.listing.seller, &self.seller, MarketplaceError::ConstraintRaw)
    }
}

/// Accounts for making an offer, with the buyer's balance in lamports.
#[derive(Debug, Clone, Copy)]
pub struct MakeOffer {
    pub buyer: Pubkey,
    pub buyer_lamports: u64,
    pub mint: Pubkey,
    pub offer_key: Pubkey,
    pub offer: Offer,
    pub offer_bump: u8,
}

/// Accounts for accepting an offer.
#[derive(Debug, Clone, Copy)]
pub struct AcceptOffer {
    pub seller: Pubkey,
    pub buyer: Pubkey,
    pub marketplace_authority: Pubkey,
    pub mint: Pubkey,
    pub seller_token_account: TokenAccountData,
    pub offer_key: Pubkey,
    pub offer: Offer,
}

/// The first account constraint of an acceptance that fails: the seller's
/// token account holds the mint's one token, and the offer is for that mint
/// and by that buyer.
pub open spec fn accept_offer_accounts_error(ctx: AcceptOffer) -> Option<MarketplaceError> {
    if ctx.seller_token_account.mint@ != ctx.mint@ || ctx.seller_token_account.owner@ != ctx.seller@
        || ctx.seller_token_account.amount != 1 || ctx.offer.mint@ != ctx.mint@
        || ctx.offer.buyer@ != ctx.buyer@ {
        Some(MarketplaceError::ConstraintRaw)
    } else {
        None
    }
}

impl AcceptOffer {
    /// Checks the account constraints of an acceptance.
    pub fn validate(&self) -> (r: Result<(), MarketplaceError>)
        ensures
            r is Err <==> accept_offer_accounts_error(*self) is Some,
            r matches Err(e) ==> accept_offer_accounts_error(*self) == Some(e),
    {
        require_key(&self.seller_token_account.mint, &self.mint, MarketplaceError::ConstraintRaw)?;
        require_key(&self.seller_token_account.owner, &self.seller, MarketplaceError::ConstraintRaw)?;
        if self.seller_token_account.amount != 1 {
            return Err(MarketplaceError::ConstraintRaw);
        }
        require_key(&self.offer.mint, &self.mint, MarketplaceError::ConstraintRaw)?;
        require_key(&self.offer.buyer, &self.buyer, MarketplaceError::ConstraintRaw)
    }
}

/// Accounts for withdrawing an offer.
#[derive(Debug, Clone, Copy)]
pub struct CancelOffer {
    pub buyer: Pubkey,
    pub offer_key: Pubkey,
    pub offer: Offer,
}

/// The offer must be the signer's.
pub open spec fn buyer_accounts_error(buyer: Pubkey, offer: Offer) -> Option<MarketplaceError> {
    if offer.buyer@ != buyer@ {
        Some(MarketplaceError::ConstraintRaw)
    } else {
        None
    }
}

impl CancelOffer {
    /// Checks that the offer is the signer's.
    pub fn validate(&self) -> (r: Result<(), MarketplaceError>)
        ensures
            r is Err <==> buyer_accounts_error(self.buyer, self.offer) is Some,
            r matches Err(e) ==> buyer_accounts_error(self.buyer, self.offer) == Some(e),
    {
        require_key(&self.offer.buyer, &self.buyer, MarketplaceError::ConstraintRaw)
    }
}

/// Accounts for creating the program's settings, with the program's
/// upgrade authority (`None` for a program that can no longer be upgraded).
#[derive(Debug, Clone, Copy)]
pub struct InitializeProgramState {
    pub program_state: ProgramState,
    pub admin: Pubkey,
    pub upgrade_authority: Option<Pubkey>,
}

/// The settings must name the signer as their admin.
pub open spec fn admin_accounts_error(program_state: ProgramState, admin: Pubkey) -> Option<MarketplaceError> {
    if program_state.admin@ != admin@ {
        fail(ErrorCode::Unauthorized)
    } else {
        None
    }
}

/// Accounts for changing the minting price.
#[derive(Debug, Clone, Copy)]
pub struct SetMintingPrice {
    pub program_state: ProgramState,
    pub admin: Pubkey,
}

impl SetMintingPrice {
    /// Checks that the signer is the admin.
    pub fn validate(&self) -> (r: Result<(), MarketplaceError>)
        ensures
            r is Err <==> admin_accounts_error(self.program_state, self.admin) is Some,
            r matches Err(e) ==> admin_accounts_error(self.program_state, self.admin) == Some(e),
    {
        require_key(&self.program_state.admin, &self.admin, MarketplaceError::Program(ErrorCode::Unauthorized))
    }
}

/// Accounts for changing the cleanup reward.
#[derive(Debug, Clone, Copy)]
pub struct SetCleanupReward {
    pub program_state: ProgramState,
    pub admin: Pubkey,
}

impl SetCleanupReward {
    /// Checks that the signer is the admin.
    pub fn validate(&self) -> (r: Result<(), MarketplaceError>)
        ensures
            r is Err <==> admin_accounts_error(self.program_state, self.admin) is Some,
            r matches Err(e) ==> admin_accounts_error(self.program_state, self.admin) == Some(e),
    {
        require_key(&self.program_state.admin, &self.admin, MarketplaceError::Program(ErrorCode::Unauthorized))
    }
}

} // verus!
