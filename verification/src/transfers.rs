use vstd::prelude::*;
use crate::pubkey::Pubkey;

verus! {

/// Lamports that the system program moves from one account to another.
#[derive(Debug, Clone, Copy)]
pub struct LamportTransfer {
    pub from: Pubkey,
    pub to: Pubkey,
    pub amount: u64,
}

/// Tokens that the token program moves from one token account to another,
/// on the authority of the source account's owner.
#[derive(Debug, Clone, Copy)]
pub struct TokenTransfer {
    pub from: Pubkey,
    pub to: Pubkey,
    pub authority: Pubkey,
    pub amount: u64,
}

} // verus!
