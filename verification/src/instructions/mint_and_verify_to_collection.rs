use vstd::prelude::*;
use crate::accounts::{fail, MintAndVerifyToCollection};
use crate::errors::{ErrorCode, MarketplaceError};
use crate::events::{CollectionItemCountUpdated, CollectionNftMinted};
use crate::instructions::mint_to_collection::{collection_item, is_collection_item, payer_event_creator_list, payer_event_creators, planned_fee_payment};
use crate::metadata::TokenCreation;
use crate::pubkey::default_key;
use crate::state::UserCollection;
use crate::transfers::LamportTransfer;
use crate::utils::validate_royalty_percent;

verus! {

/// What minting and verifying into a collection does: the minting fee,
/// the token to make (the caller then verifies it in the collection), and
/// the events to report.
#[derive(Debug, Clone)]
pub struct VerifiedCollectionMint {
    pub fee_payment: LamportTransfer,
    pub token: TokenCreation,
    pub event: CollectionNftMinted,
    pub count_event: CollectionItemCountUpdated,
}

/// The collection record before the item is counted: a record whose
/// authority is unset is started afresh for the collection authority, with
/// the item's name, symbol and uri and no items; any other record stays.
pub open spec fn record_before_count(ctx: MintAndVerifyToCollection, name: String, symbol: String, uri: String, now: i64) -> UserCollection {
    if ctx.user_collection.authority@ == default_key() {
        UserCollection {
            authority: ctx.collection_authority,
            collection_mint: ctx.collection_mint,
            name,
            symbol,
            uri,
            created_at: now,
            total_items: 0,
            verified: true,
            bump: ctx.user_collection_bump,
        }
    } else {
        ctx.user_collection
    }
}

/// Why minting and verifying is refused, checked in order: the royalty
/// must be at most 50%, and the item count must not overflow.
pub open spec fn mint_and_verify_error(ctx: MintAndVerifyToCollection, name: String, symbol: String, uri: String, royalty_percent: u16, now: i64) -> Option<MarketplaceError> {
    if royalty_percent > 50 {
        fail(ErrorCode::RoyaltyTooHigh)
    } else if record_before_count(ctx, name, symbol, uri, now).total_items == u64::MAX {
        fail(ErrorCode::ArithmeticOverflow)
    } else {
        None
    }
}

/// The collection record after one more item is counted.
pub open spec fn record_after_mint(ctx: MintAndVerifyToCollection, name: String, symbol: String, uri: String, now: i64) -> UserCollection {
    let before = record_before_count(ctx, name, symbol, uri, now);
    UserCollection { total_items: (before.total_items + 1) as u64, ..before }
}

/// Mints an NFT into a collection for the current minting price, at time
/// `now`, starting the collection's record where it has none, and counts
/// the item in the record.
pub fn mint_and_verify_to_collection(ctx: &mut MintAndVerifyToCollection, id_nft: u64, name: String, symbol: String, uri: String, royalty_percent: u16, now: i64) -> (r: Result<VerifiedCollectionMint, MarketplaceError>)
    ensures
        r is Err <==> mint_and_verify_error(*old(ctx), name, symbol, uri, royalty_percent, now) is Some,
        r matches Err(e) ==> mint_and_verify_error(*old(ctx), name, symbol, uri, royalty_percent, now) == Some(e) && *final(ctx) == *old(ctx),
        r matches Ok(m) ==> {
            &&& *final(ctx) == (MintAndVerifyToCollection {
                user_collection: record_after_mint(*old(ctx), name, symbol, uri, now),
                ..*old(ctx)
            })
            &&& final(ctx).user_collection.total_items == record_before_count(*old(ctx), name, symbol, uri, now).total_items + 1
            &&& m.fee_payment == planned_fee_payment(old(ctx).program_state, old(ctx).payer, old(ctx).mint_fee_account)
            &&& is_collection_item(m.token, name, symbol, uri, (royalty_percent * 100) as u16, old(ctx).payer, old(ctx).collection_mint)
            &&& m.event.id_nft == id_nft
            &&& m.event.mint == old(ctx).mint
            &&& m.event.payer == old(ctx).payer
            &&& m.event.authority == old(ctx).authority
            &&& m.event.name == name
            &&& m.event.symbol == symbol
            &&& m.event.uri == uri
            &&& m.event.collection == old(ctx).collection_mint
            &&& m.event.royalty_percent == royalty_percent
            &&& m.event.seller_fee_basis_points == royalty_percent * 100
            &&& payer_event_creators(m.event.creators, old(ctx).payer)
            &&& m.count_event == (CollectionItemCountUpdated {
                collection_mint: old(ctx).collection_mint,
                total_items: final(ctx).user_collection.total_items,
                timestamp: now,
            })
        },
{
    let seller_fee_basis_points = match validate_royalty_percent(royalty_percent) {
        Ok(bps) => bps,
        Err(e) => return Err(MarketplaceError::Program(e)),
    };
    let is_new = ctx.user_collection.authority.is_default();
    let current_items: u64 = if is_new {
        0
    } else {
        ctx.user_collection.total_items
    };
    let total_items = match current_items.checked_add(1) {
        Some(n) => n,
        None => return Err(MarketplaceError::Program(ErrorCode::ArithmeticOverflow)),
    };
    if is_new {
        ctx.user_collection = UserCollection {
            authority: ctx.collection_authority,
            collection_mint: ctx.collection_mint,
            name: name.clone(),
            symbol: symbol.clone(),
            uri: uri.clone(),
            created_at: now,
            total_items: 0,
            verified: true,
            bump: ctx.user_collection_bump,
        };
    }
    ctx.user_collection.total_items = total_items;
    let token = collection_item(&name, &symbol, &uri, seller_fee_basis_points, ctx.payer, ctx.collection_mint);
    Ok(VerifiedCollectionMint {
        fee_payment: LamportTransfer { from: ctx.payer, to: ctx.mint_fee_account, amount: ctx.program_state.minting_price },
        token,
        event: CollectionNftMinted {
            id_nft,
            mint: ctx.mint,
            payer: ctx.payer,
            authority: ctx.authority,
            name,
            symbol,
            uri,
            collection: ctx.collection_mint,
            royalty_percent,
            seller_fee_basis_points,
            creators: payer_event_creator_list(ctx.payer),
        },
        count_event: CollectionItemCountUpdated {
            collection_mint: ctx.collection_mint,
            total_items,
            timestamp: now,
        },
    })
}

} // verus!
