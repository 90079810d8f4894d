use vstd::prelude::*;
use crate::accounts::SetMintingPrice;
use crate::state::ProgramState;

verus! {

/// Sets the price of minting; the admin stays.
pub fn set_minting_price(ctx: &mut SetMintingPrice, new_price: u64)
    ensures
        *final(ctx) == (SetMintingPrice {
            program_state: ProgramState { minting_price: new_price, ..old(ctx).program_state },
            ..*old(ctx)
        }),
{
    ctx.program_state.minting_price = new_price;
}

} // verus!
