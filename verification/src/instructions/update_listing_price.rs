use vstd::prelude::*;
use crate::accounts::{fail, UpdateListing};
use crate::errors::{ErrorCode, MarketplaceError};
use crate::events::ListingPriceUpdated;
use crate::state::Listing;

verus! {

/// Why a price change is refused, checked in order: the listing must be
/// active and be the signer's.
pub open spec fn update_listing_price_error(ctx: UpdateListing) -> Option<MarketplaceError> {
    if !ctx.listing.is_active {
        fail(ErrorCode::ListingNotActive)
    } else if ctx.listing.seller@ != ctx.seller@ {
        fail(ErrorCode::UnauthorizedSeller)
    } else {
        None
    }
}

/// Sets a new price on an active listing; nothing else of it changes.
pub fn update_listing_price(ctx: &mut UpdateListing, new_price: u64) -> (r: Result<ListingPriceUpdated, MarketplaceError>)
    ensures
        r is Err <==> update_listing_price_error(*old(ctx)) is Some,
        r matches Err(e) ==> update_listing_price_error(*old(ctx)) == Some(e) && *final(ctx) == *old(ctx),
        r matches Ok(ev) ==> {
            &&& *final(ctx) == (UpdateListing { listing: Listing { price: new_price, ..old(ctx).listing }, ..*old(ctx) })
            &&& ev == (ListingPriceUpdated {
                listing: old(ctx).listing_key,
                seller: old(ctx).seller,
                old_price: old(ctx).listing.price,
                new_price,
            })
        },
{
    if !ctx.listing.is_active {
        return Err(MarketplaceError::Program(ErrorCode::ListingNotActive));
    }
    if !ctx.listing.seller.same_as(&ctx.seller) {
        return Err(MarketplaceError::Program(ErrorCode::UnauthorizedSeller));
    }
    let old_price = ctx.listing.price;
    ctx.listing.price = new_price;
    Ok(ListingPriceUpdated { listing: ctx.listing_key, seller: ctx.seller, old_price, new_price })
}

} // verus!
