use vstd::prelude::*;
use crate::accounts::SetAndVerifyCollectionCtx;
use crate::errors::MarketplaceError;
use crate::instructions::verify_nft_in_collection::{check_collection_authority, collection_authority_error};
use crate::pubkey::Pubkey;

verus! {

/// Checks that the signer may set and verify an NFT's collection, and
/// gives the collection authority record to hand to the metadata program:
/// `collection_key`.
pub fn set_and_verify_collection(ctx: &SetAndVerifyCollectionCtx, collection_key: Pubkey) -> (r: Result<Option<Pubkey>, MarketplaceError>)
    ensures
        r is Err <==> collection_authority_error(ctx.collection_metadata@, ctx.collection_authority@) is Some,
        r matches Err(e) ==> collection_authority_error(ctx.collection_metadata@, ctx.collection_authority@) == Some(e),
        r matches Ok(record) ==> record == Some(collection_key),
{
    check_collection_authority(&ctx.collection_metadata, &ctx.collection_authority)?;
    Ok(Some(collection_key))
}

} // verus!
