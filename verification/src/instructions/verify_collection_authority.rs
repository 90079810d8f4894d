use vstd::prelude::*;
use crate::accounts::{fail, VerifyCollectionAuthority};
use crate::errors::{ErrorCode, MarketplaceError};

verus! {

/// Why a collection authority is refused: the signer must be the owner of
/// the collection's metadata account.
pub open spec fn verify_collection_authority_error(ctx: VerifyCollectionAuthority) -> Option<MarketplaceError> {
    if ctx.collection_authority@ != ctx.collection_metadata_owner@ {
        fail(ErrorCode::InvalidCollectionAuthority)
    } else {
        None
    }
}

/// Checks that the signer is the owner of the collection's metadata
/// account.
pub fn verify_collection_authority(ctx: &VerifyCollectionAuthority) -> (r: Result<(), MarketplaceError>)
    ensures
        r is Err <==> verify_collection_authority_error(*ctx) is Some,
        r matches Err(e) ==> verify_collection_authority_error(*ctx) == Some(e),
{
    if !ctx.collection_authority.same_as(&ctx.collection_metadata_owner) {
        return Err(MarketplaceError::Program(ErrorCode::InvalidCollectionAuthority));
    }
    Ok(())
}

} // verus!
