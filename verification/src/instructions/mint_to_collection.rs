use vstd::prelude::*;
use crate::accounts::{fail, MintToCollection};
use crate::errors::{ErrorCode, MarketplaceError};
use crate::events::CollectionNftMinted;
use crate::metadata::{has_sole_creator, sole_creator_list, CollectionRef, NewMetadata, TokenCreation};
use crate::pubkey::Pubkey;
use crate::state::{CreatorEventData, ProgramState};
use crate::transfers::LamportTransfer;
use crate::utils::validate_royalty_percent;

verus! {

/// What minting into a collection does: the minting fee the payer pays into
/// the fee account, the token to make, and the event to report.
#[derive(Debug, Clone)]
pub struct CollectionMint {
    pub fee_payment: LamportTransfer,
    pub token: TokenCreation,
    pub event: CollectionNftMinted,
}

/// The minting fee: the current minting price, paid by the payer into the
/// fee account.
pub open spec fn planned_fee_payment(program_state: ProgramState, payer: Pubkey, mint_fee_account: Pubkey) -> LamportTransfer {
    LamportTransfer { from: payer, to: mint_fee_account, amount: program_state.minting_price }
}

/// The creator list that minting events report: the payer alone.
pub open spec fn payer_event_creators(creators: Vec<CreatorEventData>, payer: Pubkey) -> bool {
    creators@ == seq![CreatorEventData { address: payer, verified: true, share: 100 }]
}

/// The event list of creators for a payer who is sole creator.
pub fn payer_event_creator_list(payer: Pubkey) -> (r: Vec<CreatorEventData>)
    ensures
        payer_event_creators(r, payer),
{
    let r = vec![CreatorEventData { address: payer, verified: true, share: 100 }];
    assert(r@ =~= seq![CreatorEventData { address: payer, verified: true, share: 100 }]);
    r
}

/// Whether `token` makes one collection item: one token of the given name,
/// symbol and uri, with the royalty in basis points, the payer as sole
/// creator, the collection named but not yet verified, and a master edition
/// of at most one print.
pub open spec fn is_collection_item(token: TokenCreation, name: String, symbol: String, uri: String, royalty_bps: u16, payer: Pubkey, collection: Pubkey) -> bool {
    &&& token.amount == 1
    &&& token.max_supply == Some(1u64)
    &&& token.metadata.name == name
    &&& token.metadata.symbol == symbol
    &&& token.metadata.uri == uri
    &&& token.metadata.seller_fee_basis_points == royalty_bps
    &&& has_sole_creator(token.metadata.creators, payer)
    &&& token.metadata.collection == Some(CollectionRef { key: collection, verified: false })
    &&& token.metadata.is_mutable
    &&& token.metadata.update_authority_is_signer
}

/// The token that makes one collection item.
pub fn collection_item(name: &String, symbol: &String, uri: &String, royalty_bps: u16, payer: Pubkey, collection: Pubkey) -> (r: TokenCreation)
    ensures
        is_collection_item(r, *name, *symbol, *uri, royalty_bps, payer, collection),
{
    TokenCreation {
        amount: 1,
        metadata: NewMetadata {
            name: name.clone(),
            symbol: symbol.clone(),
            uri: uri.clone(),
            seller_fee_basis_points: royalty_bps,
            creators: Some(sole_creator_list(payer)),
            collection: Some(CollectionRef { key: collection, verified: false }),
            is_mutable: true,
            update_authority_is_signer: true,
        },
        max_supply: Some(1),
    }
}

/// Why minting into a collection is refused: the royalty must be at most
/// 50%.
pub open spec fn mint_to_collection_error(royalty_percent: u16) -> Option<MarketplaceError> {
    if royalty_percent > 50 {
        fail(ErrorCode::RoyaltyTooHigh)
    } else {
        None
    }
}

/// Mints an NFT into a collection, for the current minting price, with a
/// royalty of `royalty_percent` percent.
pub fn mint_to_collection(ctx: &MintToCollection, id_nft: u64, name: String, symbol: String, uri: String, royalty_percent: u16) -> (r: Result<CollectionMint, MarketplaceError>)
    ensures
        r is Err <==> mint_to_collection_error(royalty_percent) is Some,
        r matches Err(e) ==> mint_to_collection_error(royalty_percent) == Some(e),
        r matches Ok(m) ==> {
            &&& m.fee_payment == planned_fee_payment(ctx.program_state, ctx.payer, ctx.mint_fee_account)
            &&& is_collection_item(m.token, name, symbol, uri, (royalty_percent * 100) as u16, ctx.payer, ctx.collection)
            &&& m.event.id_nft == id_nft
            &&& m.event.mint == ctx.mint
            &&& m.event.payer == ctx.payer
            &&& m.event.authority == ctx.authority
            &&& m.event.name == name
            &&& m.event.symbol == symbol
            &&& m.event.uri == uri
            &&& m.event.collection == ctx.collection
            &&& m.event.royalty_percent == royalty_percent
            &&& m.event.seller_fee_basis_points == royalty_percent * 100
            &&& payer_event_creators(m.event.creators, ctx.payer)
        },
{
    let seller_fee_basis_points = match validate_royalty_percent(royalty_percent) {
        Ok(bps) => bps,
        Err(e) => return Err(MarketplaceError::Program(e)),
    };
    let token = collection_item(&name, &symbol, &uri, seller_fee_basis_points, ctx.payer, ctx.collection);
    Ok(CollectionMint {
        fee_payment: LamportTransfer { from: ctx.payer, to: ctx.mint_fee_account, amount: ctx.program_state.minting_price },
        token,
        event: CollectionNftMinted {
            id_nft,
            mint: ctx.mint,
            payer: ctx.payer,
            authority: ctx.authority,
            name,
            symbol,
            uri,
            collection: ctx.collection,
            royalty_percent,
            seller_fee_basis_points,
            creators: payer_event_creator_list(ctx.payer),
        },
    })
}

} // verus!
