use vstd::prelude::*;
use crate::accounts::CreateCollection;
use crate::events::CollectionCreated;
use crate::metadata::{has_sole_creator, sole_creator_list, NewMetadata, TokenCreation};
use crate::state::UserCollection;

verus! {

/// What creating a collection does besides recording it: the collection
/// token to make and the event to report.
#[derive(Debug, Clone)]
pub struct CollectionCreation {
    pub token: TokenCreation,
    pub event: CollectionCreated,
}

/// The record that `create_collection` writes.
pub open spec fn new_collection_record(ctx: CreateCollection, name: String, symbol: String, uri: String, now: i64) -> UserCollection {
    UserCollection {
        authority: ctx.authority,
        collection_mint: ctx.mint,
        name,
        symbol,
        uri,
        created_at: now,
        total_items: 0,
        verified: true,
        bump: ctx.user_collection_bump,
    }
}

/// Creates a collection at time `now`: one token with the given name,
/// symbol and uri, no royalty, the authority as sole creator and no parent
/// collection, a master edition with no prints, and a verified record with
/// no items.
pub fn create_collection(ctx: &mut CreateCollection, id_collection: u64, name: String, symbol: String, uri: String, now: i64) -> (r: CollectionCreation)
    ensures
        *final(ctx) == (CreateCollection { user_collection: new_collection_record(*old(ctx), name, symbol, uri, now), ..*old(ctx) }),
        r.token.amount == 1,
        r.token.max_supply == Some(0u64),
        r.token.metadata.name == name,
        r.token.metadata.symbol == symbol,
        r.token.metadata.uri == uri,
        r.token.metadata.seller_fee_basis_points == 0,
        has_sole_creator(r.token.metadata.creators, old(ctx).authority),
        r.token.metadata.collection is None,
        r.token.metadata.is_mutable,
        r.token.metadata.update_authority_is_signer,
        r.event == (CollectionCreated {
            id_collection,
            mint: old(ctx).mint,
            authority: old(ctx).authority,
            payer: old(ctx).payer,
            name,
            symbol,
            uri,
            created_at: now,
        }),
{
    let metadata = NewMetadata {
        name: name.clone(),
        symbol: symbol.clone(),
        uri: uri.clone(),
        seller_fee_basis_points: 0,
        creators: Some(sole_creator_list(ctx.authority)),
        collection: None,
        is_mutable: true,
        update_authority_is_signer: true,
    };
    ctx.user_collection = UserCollection {
        authority: ctx.authority,
        collection_mint: ctx.mint,
        name: name.clone(),
        symbol: symbol.clone(),
        uri: uri.clone(),
        created_at: now,
        total_items: 0,
        verified: true,
        bump: ctx.user_collection_bump,
    };
    CollectionCreation {
        token: TokenCreation { amount: 1, metadata, max_supply: Some(0) },
        event: CollectionCreated {
            id_collection,
            mint: ctx.mint,
            authority: ctx.authority,
            payer: ctx.payer,
            name,
            symbol,
            uri,
            created_at: now,
        },
    }
}

} // verus!
