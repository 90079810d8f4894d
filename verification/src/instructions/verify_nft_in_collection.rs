use vstd::prelude::*;
use crate::accounts::{fail, VerifyNFTInCollection};
use crate::errors::{ErrorCode, MarketplaceError};
use crate::metadata::{decode_metadata, decoded_metadata, MetadataFields};
use crate::pubkey::Pubkey;

verus! {

/// Why a collection authority may not verify: it must be the update
/// authority that the collection's metadata names.
pub open spec fn update_authority_error(metadata: MetadataFields, authority: Seq<u8>) -> Option<MarketplaceError> {
    if authority != metadata.update_authority@ {
        fail(ErrorCode::UnauthorizedCollectionUpdateAuthority)
    } else {
        None
    }
}

/// Checks a collection authority against the collection's decoded
/// metadata.
pub fn check_update_authority(metadata: &MetadataFields, authority: &Pubkey) -> (r: Result<(), MarketplaceError>)
    ensures
        r is Err <==> update_authority_error(*metadata, authority@) is Some,
        r matches Err(e) ==> update_authority_error(*metadata, authority@) == Some(e),
{
    if !authority.same_as(&metadata.update_authority) {
        return Err(MarketplaceError::Program(ErrorCode::UnauthorizedCollectionUpdateAuthority));
    }
    Ok(())
}

/// Why a collection authority is refused for a collection's metadata
/// account data: the data must decode and name it as update authority.
pub open spec fn collection_authority_error(collection_metadata: Seq<u8>, authority: Seq<u8>) -> Option<MarketplaceError> {
    match decoded_metadata(collection_metadata) {
        None => Some(MarketplaceError::BorshIoError),
        Some(m) => update_authority_error(m, authority),
    }
}

/// Decodes a collection's metadata account and checks the collection
/// authority against it.
pub fn check_collection_authority(collection_metadata: &Vec<u8>, authority: &Pubkey) -> (r: Result<(), MarketplaceError>)
    ensures
        r is Err <==> collection_authority_error(collection_metadata@, authority@) is Some,
        r matches Err(e) ==> collection_authority_error(collection_metadata@, authority@) == Some(e),
{
    let metadata = match decode_metadata(collection_metadata) {
        Ok(m) => m,
        Err(_) => return Err(MarketplaceError::BorshIoError),
    };
    check_update_authority(&metadata, authority)
}

/// Checks that the signer may verify an NFT in the collection; the
/// verification itself is the metadata program's.
pub fn verify_nft_in_collection(ctx: &VerifyNFTInCollection) -> (r: Result<(), MarketplaceError>)
    ensures
        r is Err <==> collection_authority_error(ctx.collection_metadata@, ctx.collection_authority@) is Some,
        r matches Err(e) ==> collection_authority_error(ctx.collection_metadata@, ctx.collection_authority@) == Some(e),
{
    check_collection_authority(&ctx.collection_metadata, &ctx.collection_authority)
}

} // verus!
