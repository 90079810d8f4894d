use vstd::prelude::*;

verus! {

/// Prefix of every address that the program derives.
pub open spec fn program_seed_prefix_bytes() -> Seq<u8> {
    seq![110u8, 102, 116, 95, 109, 97, 114, 107, 101, 116, 112, 108, 97, 99, 101]
}

/// Prefix of every address that the program derives.
pub fn program_seed_prefix() -> (r: Vec<u8>)
    ensures
        r@ == program_seed_prefix_bytes(),
{
    let r: Vec<u8> = vec![110u8, 102, 116, 95, 109, 97, 114, 107, 101, 116, 112, 108, 97, 99, 101];
    assert(r@ =~= program_seed_prefix_bytes());
    r
}

/// Seed that marks a collection record's address.
pub open spec fn user_collection_seed_bytes() -> Seq<u8> {
    seq![117u8, 115, 101, 114, 95, 99, 111, 108, 108, 101, 99, 116, 105, 111, 110]
}

/// Seed that marks a collection record's address.
pub fn user_collection_seed() -> (r: Vec<u8>)
    ensures
        r@ == user_collection_seed_bytes(),
{
    let r: Vec<u8> = vec![117u8, 115, 101, 114, 95, 99, 111, 108, 108, 101, 99, 116, 105, 111, 110];
    assert(r@ =~= user_collection_seed_bytes());
    r
}

} // verus!
