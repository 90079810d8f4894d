use vstd::prelude::*;
use crate::constants::{program_seed_prefix, program_seed_prefix_bytes, user_collection_seed, user_collection_seed_bytes};
use crate::pda::{program_address, try_find_program_address};
use crate::pubkey::Pubkey;

verus! {

/// An NFT offered for sale at a fixed price.
#[derive(Debug, Clone, Copy)]
pub struct Listing {
    pub seller: Pubkey,
    pub mint: Pubkey,
    pub collection_mint: Pubkey,
    pub price: u64,
    pub is_active: bool,
    pub listed_at: i64,
    pub bump: u8,
}

impl Listing {
    /// Space of a listing account: discriminator and fields.
    pub const LEN: usize = 8 + 32 + 32 + 32 + 8 + 1 + 8 + 1;
}

/// A buyer's standing offer for an NFT.
#[derive(Debug, Clone, Copy)]
pub struct Offer {
    pub buyer: Pubkey,
    pub mint: Pubkey,
    pub price: u64,
    pub expiry_time: i64,
    pub is_active: bool,
    pub created_at: i64,
    pub bump: u8,
}

impl Offer {
    /// Space of an offer account: discriminator and fields.
    pub const LEN: usize = 8 + 32 + 32 + 8 + 8 + 1 + 8 + 1;
}

/// The program's settings: its admin and the price of minting.
#[derive(Debug, Clone, Copy)]
pub struct ProgramState {
    pub admin: Pubkey,
    pub minting_price: u64,
}

impl ProgramState {
    /// Space of the program state account: discriminator and fields.
    pub const LEN: usize = 8 + 32 + 8 + 8;
}

/// A collection created through the marketplace and the count of its items.
#[derive(Debug, Clone)]
pub struct UserCollection {
    pub authority: Pubkey,
    pub collection_mint: Pubkey,
    pub name: String,
    pub symbol: String,
    pub uri: String,
    pub created_at: i64,
    pub total_items: u64,
    pub verified: bool,
    pub bump: u8,
}

/// The seeds of a collection record's address: the program prefix, the
/// record marker, the collection authority and the collection mint.
pub open spec fn user_collection_seeds(authority: Seq<u8>, collection_mint: Seq<u8>) -> Seq<Seq<u8>> {
    seq![program_seed_prefix_bytes(), user_collection_seed_bytes(), authority, collection_mint]
}

/// The bytes of an address, as a seed.
pub fn key_seed(key: &Pubkey) -> (r: Vec<u8>)
    ensures
        r@ == key@,
{
    let mut r: Vec<u8> = Vec::new();
    let mut i: usize = 0;
    while i < 32
        invariant
            i <= 32,
            key@.len() == 32,
            r@ == key@.take(i as int),
        decreases 32 - i,
    {
        r.push(key.bytes[i]);
        i += 1;
        assert(r@ =~= key@.take(i as int));
    }
    assert(key@.take(32) =~= key@);
    r
}

impl UserCollection {
    /// Space of a collection record: discriminator, fields, and room for a
    /// name, symbol and uri.
    pub const LEN: usize = 8 + 32 + 32 + 64 + 16 + 200 + 8 + 8 + 1 + 1;

    /// The address and bump seed of the record that `authority` keeps for
    /// `collection_mint` under `program_id`, or `None` where no bump seed
    /// gives an address.
    pub fn find_collection_record(program_id: &Pubkey, authority: &Pubkey, collection_mint: &Pubkey) -> (r: Option<(Pubkey, u8)>)
        ensures
            match r {
                Some((k, bump)) => collection_record_address(program_id@, authority@, collection_mint@) == Some((k@, bump)),
                None => collection_record_address(program_id@, authority@, collection_mint@) is None,
            },
    {
        let prefix = program_seed_prefix();
        let marker = user_collection_seed();
        let authority_seed = key_seed(authority);
        let mint_seed = key_seed(collection_mint);
        assert(prefix.deep_view() =~= prefix@);
        assert(marker.deep_view() =~= marker@);
        assert(authority_seed.deep_view() =~= authority_seed@);
        assert(mint_seed.deep_view() =~= mint_seed@);
        let mut seeds: Vec<Vec<u8>> = Vec::new();
        seeds.push(prefix);
        seeds.push(marker);
        seeds.push(authority_seed);
        seeds.push(mint_seed);
        assert(seeds.deep_view() =~= user_collection_seeds(authority@, collection_mint@));
        try_find_program_address(&seeds, program_id)
    }

    /// The address of the record that `authority` keeps for
    /// `collection_mint` under `program_id`: the program-derived address of
    /// the collection record's seeds, or `None` where no bump seed gives one.
    pub fn get_collection_by_authority(program_id: &Pubkey, authority: &Pubkey, collection_mint: &Pubkey) -> (r: Option<Pubkey>)
        ensures
            match r {
                Some(k) => collection_record_address(program_id@, authority@, collection_mint@) matches Some(found) && found.0 == k@,
                None => collection_record_address(program_id@, authority@, collection_mint@) is None,
            },
    {
        match UserCollection::find_collection_record(program_id, authority, collection_mint) {
            Some((key, _bump)) => Some(key),
            None => None,
        }
    }
}

/// The address and bump seed of the collection record of `authority` for
/// `collection_mint` under `program_id`.
pub open spec fn collection_record_address(program_id: Seq<u8>, authority: Seq<u8>, collection_mint: Seq<u8>) -> Option<(Seq<u8>, u8)> {
    program_address(user_collection_seeds(authority, collection_mint), program_id)
}

/// A creator as events report it.
#[derive(Debug, Clone, Copy)]
pub struct CreatorEventData {
    pub address: Pubkey,
    pub verified: bool,
    pub share: u8,
}

} // verus!

verus! {

/// A listing once it is sold or withdrawn: the same listing, inactive.
pub open spec fn closed_listing(l: Listing) -> Listing {
    Listing { is_active: false, ..l }
}

/// An offer once it is withdrawn: the same offer, inactive.
pub open spec fn closed_offer(o: Offer) -> Offer {
    Offer { is_active: false, ..o }
}

} // verus!
