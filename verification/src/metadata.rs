use vstd::prelude::*;
use crate::pubkey::Pubkey;

verus! {

/// The collection that a token's metadata names.
#[derive(Debug, Clone, Copy)]
pub struct CollectionRef {
    pub key: Pubkey,
    pub verified: bool,
}

/// The parts of a Metaplex metadata account that the marketplace reads.
#[derive(Debug, Clone, Copy)]
pub struct MetadataFields {
    pub update_authority: Pubkey,
    pub collection: Option<CollectionRef>,
}

#[verifier::external_type_specification]
#[verifier::external_body]
pub struct ExIoError(std::io::Error);

/// What Metaplex's Borsh decoding of a metadata account
/// (`mpl_token_metadata::accounts::Metadata`) gives for the account's data:
/// its update authority and collection, or `None` where the data does not
/// decode.
pub uninterp spec fn decoded_metadata(data: Seq<u8>) -> Option<MetadataFields>;

/// Calls `Metadata::from_bytes` of `mpl_token_metadata` on an account's data,
/// the decoding that `Metadata::try_from` applies to an account. Claimed: it
/// succeeds exactly where the named decoding gives a value, and then returns
/// that value's update authority and collection. The decoding itself (Borsh
/// layout of the whole account) is left to the name.
#[verifier::external_body]
pub(crate) fn decode_metadata(data: &Vec<u8>) -> (r: Result<MetadataFields, std::io::Error>)
    ensures
        r is Ok <==> decoded_metadata(data@) is Some,
        r matches Ok(m) ==> decoded_metadata(data@) == Some(m),
{
    let m = mpl_token_metadata::accounts::Metadata::from_bytes(data.as_slice())?;
    Ok(MetadataFields {
        update_authority: Pubkey { bytes: m.update_authority.to_bytes() },
        collection: m.collection.map(|c| CollectionRef { key: Pubkey { bytes: c.key.to_bytes() }, verified: c.verified }),
    })
}

} // verus!

verus! {

/// A creator as the metadata program records it.
#[derive(Debug, Clone, Copy)]
pub struct MetadataCreator {
    pub address: Pubkey,
    pub verified: bool,
    pub share: u8,
}

/// The metadata that a new token receives: the fields of Metaplex's
/// `DataV2` that the marketplace sets (it sets no uses) and the flags of
/// its creation (it sets no collection details).
#[derive(Debug, Clone)]
pub struct NewMetadata {
    pub name: String,
    pub symbol: String,
    pub uri: String,
    pub seller_fee_basis_points: u16,
    pub creators: Option<Vec<MetadataCreator>>,
    pub collection: Option<CollectionRef>,
    pub is_mutable: bool,
    pub update_authority_is_signer: bool,
}

/// How a new token is made: the amount minted to the payer's token
/// account, its metadata, and the maximum supply of its master edition.
#[derive(Debug, Clone)]
pub struct TokenCreation {
    pub amount: u64,
    pub metadata: NewMetadata,
    pub max_supply: Option<u64>,
}

/// A single creator who holds the whole share and has signed.
pub open spec fn sole_creator(address: Pubkey) -> MetadataCreator {
    MetadataCreator { address, verified: true, share: 100 }
}

/// Whether `creators` names exactly the sole creator `address`.
pub open spec fn has_sole_creator(creators: Option<Vec<MetadataCreator>>, address: Pubkey) -> bool {
    creators matches Some(v) && v@ == seq![sole_creator(address)]
}

/// A list that names `address` as sole creator.
pub fn sole_creator_list(address: Pubkey) -> (r: Vec<MetadataCreator>)
    ensures
        r@ == seq![sole_creator(address)],
{
    let r = vec![MetadataCreator { address, verified: true, share: 100 }];
    assert(r@ =~= seq![sole_creator(address)]);
    r
}

} // verus!
