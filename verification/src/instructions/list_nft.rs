use vstd::prelude::*;
use crate::accounts::{fail, ListNFT};
use crate::errors::{ErrorCode, MarketplaceError};
use crate::events::NftListed;
use crate::metadata::{decode_metadata, decoded_metadata, MetadataFields};
use crate::pubkey::{default_key, Pubkey};
use crate::state::Listing;

verus! {

/// Why an NFT's metadata does not fit the collection it is listed under: a
/// named collection must be that collection and verified; with no
/// collection named, the listing's collection must be the unset key.
pub open spec fn listed_collection_error(metadata: MetadataFields, collection_mint: Seq<u8>) -> Option<MarketplaceError> {
    match metadata.collection {
        Some(c) => if c.key@ != collection_mint {
            fail(ErrorCode::NFTNotInCollection)
        } else if !c.verified {
            fail(ErrorCode::CollectionVerificationFailed)
        } else {
            None
        },
        None => if collection_mint != default_key() {
            fail(ErrorCode::NFTNotInCollection)
        } else {
            None
        },
    }
}

/// Checks an NFT's decoded metadata against the collection it is listed
/// under.
pub fn check_listed_collection(metadata: &MetadataFields, collection_mint: &Pubkey) -> (r: Result<(), MarketplaceError>)
    ensures
        r is Err <==> listed_collection_error(*metadata, collection_mint@) is Some,
        r matches Err(e) ==> listed_collection_error(*metadata, collection_mint@) == Some(e),
{
    match &metadata.collection {
        Some(c) => {
            if !c.key.same_as(collection_mint) {
                return Err(MarketplaceError::Program(ErrorCode::NFTNotInCollection));
            }
            if !c.verified {
                return Err(MarketplaceError::Program(ErrorCode::CollectionVerificationFailed));
            }
            Ok(())
        },
        None => {
            if !collection_mint.is_default() {
                return Err(MarketplaceError::Program(ErrorCode::NFTNotInCollection));
            }
            Ok(())
        },
    }
}

/// Why a listing is refused, checked in order: the seller's token account
/// must hold one token of the mint and belong to the seller, the NFT's
/// metadata must decode, and it must fit the collection.
pub open spec fn list_nft_error(ctx: ListNFT, collection_mint: Pubkey) -> Option<MarketplaceError> {
    if ctx.seller_token_account.amount != 1 {
        fail(ErrorCode::SellerDoesNotOwnNFT)
    } else if ctx.seller_token_account.mint@ != ctx.mint.key@ {
        fail(ErrorCode::InvalidNFT)
    } else if ctx.seller_token_account.owner@ != ctx.seller@ {
        fail(ErrorCode::UnauthorizedSeller)
    } else {
        match decoded_metadata(ctx.nft_metadata@) {
            None => Some(MarketplaceError::BorshIoError),
            Some(m) => listed_collection_error(m, collection_mint@),
        }
    }
}

/// The listing that `list_nft` writes.
pub open spec fn new_listing(ctx: ListNFT, price: u64, collection_mint: Pubkey, now: i64) -> Listing {
    Listing {
        seller: ctx.seller,
        mint: ctx.mint.key,
        collection_mint,
        price,
        is_active: true,
        listed_at: now,
        bump: ctx.listing_bump,
    }
}

/// Lists an NFT for sale at `price` under `collection_mint` (the unset key
/// for an NFT outside any collection), at time `now`.
pub fn list_nft(ctx: &mut ListNFT, price: u64, listing_id: u64, collection_mint: Pubkey, now: i64) -> (r: Result<NftListed, MarketplaceError>)
    ensures
        r is Err <==> list_nft_error(*old(ctx), collection_mint) is Some,
        r matches Err(e) ==> list_nft_error(*old(ctx), collection_mint) == Some(e) && *final(ctx) == *old(ctx),
        r matches Ok(ev) ==> {
            &&& *final(ctx) == (ListNFT { listing: new_listing(*old(ctx), price, collection_mint, now), ..*old(ctx) })
            &&& ev == (NftListed {
                listing_id,
                mint: old(ctx).mint.key,
                seller: old(ctx).seller,
                collection_mint,
                price,
                listed_at: now,
            })
        },
{
    if ctx.seller_token_account.amount != 1 {
        return Err(MarketplaceError::Program(ErrorCode::SellerDoesNotOwnNFT));
    }
    if !ctx.seller_token_account.mint.same_as(&ctx.mint.key) {
        return Err(MarketplaceError::Program(ErrorCode::InvalidNFT));
    }
    if !ctx.seller_token_account.owner.same_as(&ctx.seller) {
        return Err(MarketplaceError::Program(ErrorCode::UnauthorizedSeller));
    }
    if !ctx.mint.key.same_as(&ctx.seller_token_account.mint) {
        return Err(MarketplaceError::Program(ErrorCode::InvalidNFT));
    }
    let metadata = match decode_metadata(&ctx.nft_metadata) {
        Ok(m) => m,
        Err(_) => return Err(MarketplaceError::BorshIoError),
    };
    check_listed_collection(&metadata, &collection_mint)?;
    ctx.listing = Listing {
        seller: ctx.seller,
        mint: ctx.mint.key,
        collection_mint,
        price,
        is_active: true,
        listed_at: now,
        bump: ctx.listing_bump,
    };
    Ok(NftListed {
        listing_id,
        mint: ctx.mint.key,
        seller: ctx.seller,
        collection_mint,
        price,
        listed_at: now,
    })
}

} // verus!
