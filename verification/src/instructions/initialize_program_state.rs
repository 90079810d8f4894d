use vstd::prelude::*;
use crate::accounts::{fail, InitializeProgramState};
use crate::errors::{ErrorCode, MarketplaceError};
use crate::events::ProgramStateInitialized;
use crate::state::ProgramState;

verus! {

/// Why the settings are not created: only the program's upgrade authority
/// may create them, so the signer must be that authority, and a program
/// without one cannot have its settings created.
pub open spec fn initialize_program_state_error(ctx: InitializeProgramState) -> Option<MarketplaceError> {
    if ctx.upgrade_authority matches Some(authority) && authority@ == ctx.admin@ {
        None
    } else {
        fail(ErrorCode::UnauthorizedProgramInitialization)
    }
}

/// Creates the program's settings with the signer as admin.
pub fn initialize_program_state(ctx: &mut InitializeProgramState, minting_price: u64) -> (r: Result<ProgramStateInitialized, MarketplaceError>)
    ensures
        r is Err <==> initialize_program_state_error(*old(ctx)) is Some,
        r matches Err(e) ==> initialize_program_state_error(*old(ctx)) == Some(e) && *final(ctx) == *old(ctx),
        r matches Ok(ev) ==> {
            &&& *final(ctx) == (InitializeProgramState {
                program_state: ProgramState { admin: old(ctx).admin, minting_price },
                ..*old(ctx)
            })
            &&& ev == (ProgramStateInitialized { admin: old(ctx).admin, minting_price })
        },
{
    let authorized = match &ctx.upgrade_authority {
        Some(authority) => authority.same_as(&ctx.admin),
        None => false,
    };
    if !authorized {
        return Err(MarketplaceError::Program(ErrorCode::UnauthorizedProgramInitialization));
    }
    ctx.program_state = ProgramState { admin: ctx.admin, minting_price };
    Ok(ProgramStateInitialized { admin: ctx.admin, minting_price })
}

} // verus!
