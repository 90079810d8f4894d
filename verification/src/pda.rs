use vstd::prelude::*;
use crate::pubkey::Pubkey;

verus! {

/// The program-derived address and bump seed that the address search of
/// Solana's `Pubkey::try_find_program_address` finds for the seeds and
/// program id, or `None` where it finds none.
pub uninterp spec fn program_address(seeds: Seq<Seq<u8>>, program_id: Seq<u8>) -> Option<(Seq<u8>, u8)>;

/// Calls `Pubkey::try_find_program_address` of `solana_program` (through
/// `anchor_lang`). Claimed: the result is the named search result for these
/// seeds and this program id. How the address is hashed, which bump is found,
/// and that seed lists over the runtime's limits find nothing, are left to
/// the name.
#[verifier::external_body]
pub(crate) fn try_find_program_address(seeds: &Vec<Vec<u8>>, program_id: &Pubkey) -> (r: Option<(Pubkey, u8)>)
    ensures
        match r {
            Some((key, bump)) => program_address(seeds.deep_view(), program_id@) == Some((key@, bump)),
            None => program_address(seeds.deep_view(), program_id@) is None,
        },
{
    let refs: Vec<&[u8]> = seeds.iter().map(|s| s.as_slice()).collect();
    let id = anchor_lang::prelude::Pubkey::new_from_array(program_id.bytes);
    anchor_lang::prelude::Pubkey::try_find_program_address(&refs, &id)
        .map(|(key, bump)| (Pubkey { bytes: key.to_bytes() }, bump))
}

} // verus!
