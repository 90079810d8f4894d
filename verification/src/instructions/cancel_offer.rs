use vstd::prelude::*;
use crate::accounts::{fail, CancelOffer};
use crate::errors::{ErrorCode, MarketplaceError};
use crate::events::OfferCanceled;
use crate::state::closed_offer;

verus! {

/// Why a withdrawal of an offer is refused, checked in order: the offer
/// must be active and be the signer's.
pub open spec fn cancel_offer_error(ctx: CancelOffer) -> Option<MarketplaceError> {
    if !ctx.offer.is_active {
        fail(ErrorCode::OfferNotActive)
    } else if ctx.offer.buyer@ != ctx.buyer@ {
        fail(ErrorCode::UnauthorizedBuyer)
    } else {
        None
    }
}

/// Withdraws an active offer.
pub fn cancel_offer(ctx: &mut CancelOffer) -> (r: Result<OfferCanceled, MarketplaceError>)
    ensures
        r is Err <==> cancel_offer_error(*old(ctx)) is Some,
        r matches Err(e) ==> cancel_offer_error(*old(ctx)) == Some(e) && *final(ctx) == *old(ctx),
        r matches Ok(ev) ==> {
            &&& *final(ctx) == (CancelOffer { offer: closed_offer(old(ctx).offer), ..*old(ctx) })
            &&& ev == (OfferCanceled { offer: old(ctx).offer_key, mint: old(ctx).offer.mint, buyer: old(ctx).buyer })
        },
{
    if !ctx.offer.is_active {
        return Err(MarketplaceError::Program(ErrorCode::OfferNotActive));
    }
    if !ctx.offer.buyer.same_as(&ctx.buyer) {
        return Err(MarketplaceError::Program(ErrorCode::UnauthorizedBuyer));
    }
    ctx.offer.is_active = false;
    Ok(OfferCanceled { offer: ctx.offer_key, mint: ctx.offer.mint, buyer: ctx.buyer })
}

} // verus!
