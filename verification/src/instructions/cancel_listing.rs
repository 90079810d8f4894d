use vstd::prelude::*;
use crate::accounts::{fail, CancelListing};
use crate::errors::{ErrorCode, MarketplaceError};
use crate::events::ListingCanceled;
use crate::state::closed_listing;

verus! {

/// Why a withdrawal is refused, checked in order: the listing must be
/// active and be the signer's.
pub open spec fn cancel_listing_error(ctx: CancelListing) -> Option<MarketplaceError> {
    if !ctx.listing.is_active {
        fail(ErrorCode::ListingNotActive)
    } else if ctx.listing.seller@ != ctx.seller@ {
        fail(ErrorCode::UnauthorizedSeller)
    } else {
        None
    }
}

/// Withdraws an active listing.
pub fn cancel_listing(ctx: &mut CancelListing) -> (r: Result<ListingCanceled, MarketplaceError>)
    ensures
        r is Err <==> cancel_listing_error(*old(ctx)) is Some,
        r matches Err(e) ==> cancel_listing_error(*old(ctx)) == Some(e) && *final(ctx) == *old(ctx),
        r matches Ok(ev) ==> {
            &&& *final(ctx) == (CancelListing { listing: closed_listing(old(ctx).listing), ..*old(ctx) })
            &&& ev == (ListingCanceled { listing: old(ctx).listing_key, mint: old(ctx).listing.mint, seller: old(ctx).seller })
        },
{
    if !ctx.listing.is_active {
        return Err(MarketplaceError::Program(ErrorCode::ListingNotActive));
    }
    if !ctx.listing.seller.same_as(&ctx.seller) {
        return Err(MarketplaceError::Program(ErrorCode::UnauthorizedSeller));
    }
    ctx.listing.is_active = false;
    Ok(ListingCanceled { listing: ctx.listing_key, mint: ctx.listing.mint, seller: ctx.seller })
}

} // verus!
