use vstd::prelude::*;
use crate::accounts::{fail, BuyNFT};
use crate::errors::{ErrorCode, MarketplaceError};
use crate::events::NftPurchased;
use crate::state::closed_listing;
use crate::transfers::{LamportTransfer, TokenTransfer};
use crate::utils::{calculate_marketplace_fee, marketplace_fee};

verus! {

/// What a purchase moves and the event it reports.
#[derive(Debug, Clone, Copy)]
pub struct Purchase {
    /// The seller's share, paid by the buyer.
    pub seller_payment: LamportTransfer,
    /// The marketplace's share, paid by the buyer, made only where there is
    /// a fee.
    pub fee_payment: Option<LamportTransfer>,
    /// The NFT, from the seller's token account to the buyer's.
    pub token_transfer: TokenTransfer,
    pub event: NftPurchased,
}

/// Why a purchase is refused, checked in order: the listing must be active,
/// the buyer must not be its seller, and the fee rate must be at most 100%.
pub open spec fn buy_nft_error(ctx: BuyNFT, marketplace_fee_bps: u16) -> Option<MarketplaceError> {
    if !ctx.listing.is_active {
        fail(ErrorCode::ListingNotActive)
    } else if ctx.listing.seller@ == ctx.buyer@ {
        fail(ErrorCode::SellerCannotBuy)
    } else if marketplace_fee_bps > 10000 {
        fail(ErrorCode::InvalidFeeBasisPoints)
    } else {
        None
    }
}

/// Buys a listed NFT: splits the price between the seller and the
/// marketplace at `marketplace_fee_bps` and closes the listing. The token
/// and the lamports are moved by the caller as the result says.
pub fn buy_nft(ctx: &mut BuyNFT, marketplace_fee_bps: u16) -> (r: Result<Purchase, MarketplaceError>)
    ensures
        r is Err <==> buy_nft_error(*old(ctx), marketplace_fee_bps) is Some,
        r matches Err(e) ==> buy_nft_error(*old(ctx), marketplace_fee_bps) == Some(e) && *final(ctx) == *old(ctx),
        r matches Ok(p) ==> {
            &&& *final(ctx) == (BuyNFT { listing: closed_listing(old(ctx).listing), ..*old(ctx) })
            &&& p.event.marketplace_fee == marketplace_fee(old(ctx).listing.price, marketplace_fee_bps)
            &&& p.seller_payment == (LamportTransfer {
                from: old(ctx).buyer,
                to: old(ctx).seller,
                amount: (old(ctx).listing.price - p.event.marketplace_fee) as u64,
            })
            &&& p.seller_payment.amount + p.event.marketplace_fee == old(ctx).listing.price
            &&& p.fee_payment == (if p.event.marketplace_fee > 0 {
                Some(LamportTransfer { from: old(ctx).buyer, to: old(ctx).marketplace_authority, amount: p.event.marketplace_fee })
            } else {
                None::<LamportTransfer>
            })
            &&& p.token_transfer == (TokenTransfer {
                from: old(ctx).seller_token_account.key,
                to: old(ctx).buyer_token_account,
                authority: old(ctx).seller,
                amount: 1,
            })
            &&& p.event == (NftPurchased {
                listing: old(ctx).listing_key,
                mint: old(ctx).mint,
                buyer: old(ctx).buyer,
                seller: old(ctx).seller,
                price: old(ctx).listing.price,
                marketplace_fee: p.event.marketplace_fee,
            })
        },
{
    if !ctx.listing.is_active {
        return Err(MarketplaceError::Program(ErrorCode::ListingNotActive));
    }
    if ctx.listing.seller.same_as(&ctx.buyer) {
        return Err(MarketplaceError::Program(ErrorCode::SellerCannotBuy));
    }
    let total_price = ctx.listing.price;
    let marketplace_fee = match calculate_marketplace_fee(total_price, marketplace_fee_bps) {
        Ok(fee) => fee,
        Err(e) => return Err(MarketplaceError::Program(e)),
    };
    let seller_amount = match total_price.checked_sub(marketplace_fee) {
        Some(amount) => amount,
        None => return Err(MarketplaceError::Program(ErrorCode::ArithmeticOverflow)),
    };
    let fee_payment = if marketplace_fee > 0 {
        Some(LamportTransfer { from: ctx.buyer, to: ctx.marketplace_authority, amount: marketplace_fee })
    } else {
        None
    };
    ctx.listing.is_active = false;
    Ok(Purchase {
        seller_payment: LamportTransfer { from: ctx.buyer, to: ctx.seller, amount: seller_amount },
        fee_payment,
        token_transfer: TokenTransfer {
            from: ctx.seller_token_account.key,
            to: ctx.buyer_token_account,
            authority: ctx.seller,
            amount: 1,
        },
        event: NftPurchased {
            listing: ctx.listing_key,
            mint: ctx.mint,
            buyer: ctx.buyer,
            seller: ctx.seller,
            price: total_price,
            marketplace_fee,
        },
    })
}

} // verus!
