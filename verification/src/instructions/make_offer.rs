use vstd::prelude::*;
use crate::accounts::{fail, MakeOffer};
use crate::errors::{ErrorCode, MarketplaceError};
use crate::events::OfferMade;
use crate::state::Offer;

verus! {

/// The longest an offer may stand: one year, in seconds.
pub const MAX_OFFER_DURATION: i64 = 365 * 24 * 60 * 60;

/// Why an offer is refused, checked in order: it must expire after `now`,
/// no later than a year after `now`, and the buyer must hold the price.
pub open spec fn make_offer_error(ctx: MakeOffer, offer_price: u64, expiry_time: i64, now: i64) -> Option<MarketplaceError> {
    if expiry_time <= now {
        fail(ErrorCode::OfferExpired)
    } else if expiry_time > now + MAX_OFFER_DURATION {
        fail(ErrorCode::OfferExpiryTooLong)
    } else if ctx.buyer_lamports < offer_price {
        fail(ErrorCode::InsufficientFunds)
    } else {
        None
    }
}

/// The offer that `make_offer` writes.
pub open spec fn new_offer(ctx: MakeOffer, offer_price: u64, expiry_time: i64, now: i64) -> Offer {
    Offer {
        buyer: ctx.buyer,
        mint: ctx.mint,
        price: offer_price,
        expiry_time,
        is_active: true,
        created_at: now,
        bump: ctx.offer_bump,
    }
}

/// Makes an offer of `offer_price` lamports for an NFT, standing until
/// `expiry_time`, at time `now`.
pub fn make_offer(ctx: &mut MakeOffer, offer_price: u64, expiry_time: i64, offer_id: u64, now: i64) -> (r: Result<OfferMade, MarketplaceError>)
    requires
        expiry_time > now ==> now + MAX_OFFER_DURATION <= i64::MAX,
    ensures
        r is Err <==> make_offer_error(*old(ctx), offer_price, expiry_time, now) is Some,
        r matches Err(e) ==> make_offer_error(*old(ctx), offer_price, expiry_time, now) == Some(e) && *final(ctx) == *old(ctx),
        r matches Ok(ev) ==> {
            &&& *final(ctx) == (MakeOffer { offer: new_offer(*old(ctx), offer_price, expiry_time, now), ..*old(ctx) })
            &&& now < expiry_time <= now + MAX_OFFER_DURATION
            &&& ev == (OfferMade {
                offer_id,
                mint: old(ctx).mint,
                buyer: old(ctx).buyer,
                price: offer_price,
                expiry_time,
                created_at: now,
            })
        },
{
    if expiry_time <= now {
        return Err(MarketplaceError::Program(ErrorCode::OfferExpired));
    }
    if expiry_time > now + MAX_OFFER_DURATION {
        return Err(MarketplaceError::Program(ErrorCode::OfferExpiryTooLong));
    }
    if ctx.buyer_lamports < offer_price {
        return Err(MarketplaceError::Program(ErrorCode::InsufficientFunds));
    }
    ctx.offer = Offer {
        buyer: ctx.buyer,
        mint: ctx.mint,
        price: offer_price,
        expiry_time,
        is_active: true,
        created_at: now,
        bump: ctx.offer_bump,
    };
    Ok(OfferMade {
        offer_id,
        mint: ctx.mint,
        buyer: ctx.buyer,
        price: offer_price,
        expiry_time,
        created_at: now,
    })
}

} // verus!
