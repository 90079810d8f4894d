//! Properties of the marketplace that span its instructions.

use vstd::prelude::*;
use crate::accounts::{
    fail, accept_offer_accounts_error, admin_accounts_error, buy_nft_accounts_error, buyer_accounts_error,
    list_nft_accounts_error, seller_accounts_error, AcceptOffer, CancelListing as CancelListingAccounts, InitializeProgramState, ListNFT, MakeOffer, VerifyCollectionAuthority, fee_account_error, mint_and_verify_accounts_error, record_seeds_error, BuyNFT, CancelListing, CancelOffer, CreateCollection,
    MintAndVerifyToCollection, MintToCollection, UpdateListing,
};
use crate::errors::ErrorCode;
use crate::errors::MarketplaceError;
use crate::instructions::buy_nft::buy_nft_error;
use crate::instructions::initialize_program_state::initialize_program_state_error;
use crate::instructions::list_nft::{list_nft_error, listed_collection_error, new_listing};
use crate::instructions::make_offer::{make_offer_error, new_offer, MAX_OFFER_DURATION};
use crate::instructions::mint_to_collection::{is_collection_item, mint_to_collection_error, payer_event_creators};
use crate::instructions::verify_collection_authority::verify_collection_authority_error;
use crate::instructions::verify_nft_in_collection::collection_authority_error;
use crate::metadata::{decoded_metadata, has_sole_creator, CollectionRef, MetadataCreator, MetadataFields, TokenCreation};
use crate::pubkey::Pubkey;
use crate::instructions::cancel_listing::cancel_listing_error;
use crate::instructions::cancel_offer::cancel_offer_error;
use crate::instructions::create_collection::new_collection_record;
use crate::instructions::mint_and_verify_to_collection::{mint_and_verify_error, record_after_mint, record_before_count};
use crate::instructions::mint_to_collection::planned_fee_payment;
use crate::instructions::update_listing_price::update_listing_price_error;
use crate::pubkey::default_key;
use crate::state::{CreatorEventData, closed_listing, closed_offer, collection_record_address, Listing, Offer, ProgramState, UserCollection};
use crate::utils::marketplace_fee;

verus! {

/// The marketplace's fee never exceeds the price, at any rate of at most
/// 100%, so the seller's share is never negative.
pub proof fn lemma_fee_within_price(total_price: u64, fee_bps: u16)
    requires
        fee_bps <= 10000,
    ensures
        0 <= marketplace_fee(total_price, fee_bps) <= total_price,
{
    assert(0 <= (total_price as int * fee_bps as int) / 10000 <= total_price) by (nonlinear_arith)
        requires fee_bps <= 10000, 0 <= total_price;
}

/// A listing that was sold or withdrawn stays closed: buying it,
/// withdrawing it again, or changing its price all fail with
/// `ListingNotActive`, whoever asks.
pub proof fn lemma_closed_listing_stays_closed(listing: Listing, buy: BuyNFT, cancel: CancelListing, update: UpdateListing, fee_bps: u16)
    ensures
        buy_nft_error(BuyNFT { listing: closed_listing(listing), ..buy }, fee_bps) == fail(ErrorCode::ListingNotActive),
        cancel_listing_error(CancelListing { listing: closed_listing(listing), ..cancel }) == fail(ErrorCode::ListingNotActive),
        update_listing_price_error(UpdateListing { listing: closed_listing(listing), ..update }) == fail(ErrorCode::ListingNotActive),
{
}

/// A seller cannot buy their own active listing.
pub proof fn lemma_seller_cannot_buy_own_listing(buy: BuyNFT, fee_bps: u16)
    requires
        buy.listing.is_active,
        buy.listing.seller@ == buy.buyer@,
    ensures
        buy_nft_error(buy, fee_bps) == fail(ErrorCode::SellerCannotBuy),
{
}

/// A repriced listing stays open to its seller: after a price change, the
/// same seller can still withdraw it.
pub proof fn lemma_repriced_listing_can_be_withdrawn(update: UpdateListing, new_price: u64, cancel: CancelListing)
    requires
        update_listing_price_error(update) is None,
        cancel.seller@ == update.seller@,
    ensures
        cancel_listing_error(CancelListing { listing: Listing { price: new_price, ..update.listing }, ..cancel }) is None,
{
}

/// A withdrawn offer stays withdrawn: withdrawing it again fails with
/// `OfferNotActive`.
pub proof fn lemma_withdrawn_offer_stays_withdrawn(cancel: CancelOffer)
    ensures
        cancel_offer_error(CancelOffer { offer: closed_offer(cancel.offer), ..cancel }) == fail(ErrorCode::OfferNotActive),
{
}

/// Minting into a collection that already has a record counts one item
/// and changes nothing else of the record.
pub proof fn lemma_mint_counts_one_item(ctx: MintAndVerifyToCollection, name: String, symbol: String, uri: String, royalty_percent: u16, now: i64)
    requires
        ctx.user_collection.authority@ != default_key(),
        mint_and_verify_error(ctx, name, symbol, uri, royalty_percent, now) is None,
    ensures
        record_after_mint(ctx, name, symbol, uri, now).total_items == ctx.user_collection.total_items + 1,
        record_after_mint(ctx, name, symbol, uri, now).authority == ctx.user_collection.authority,
        record_after_mint(ctx, name, symbol, uri, now).collection_mint == ctx.user_collection.collection_mint,
        record_after_mint(ctx, name, symbol, uri, now).name == ctx.user_collection.name,
        record_after_mint(ctx, name, symbol, uri, now).created_at == ctx.user_collection.created_at,
{
}

/// One request to mint into a collection.
#[derive(Debug, Clone)]
pub struct MintRequest {
    pub name: String,
    pub symbol: String,
    pub uri: String,
    pub royalty_percent: u16,
    pub now: i64,
}

/// The accounts after one verified mint: the record after the mint where
/// it succeeds, unchanged where it fails.
pub open spec fn mint_step(ctx: MintAndVerifyToCollection, req: MintRequest) -> MintAndVerifyToCollection {
    if mint_and_verify_error(ctx, req.name, req.symbol, req.uri, req.royalty_percent, req.now) is None {
        MintAndVerifyToCollection { user_collection: record_after_mint(ctx, req.name, req.symbol, req.uri, req.now), ..ctx }
    } else {
        ctx
    }
}

/// The accounts after a run of verified mints, in order.
pub open spec fn after_mints(ctx: MintAndVerifyToCollection, reqs: Seq<MintRequest>) -> MintAndVerifyToCollection
    decreases reqs.len(),
{
    if reqs.len() == 0 {
        ctx
    } else {
        mint_step(after_mints(ctx, reqs.drop_last()), reqs.last())
    }
}

/// How many mints of a run succeed.
pub open spec fn successful_mints(ctx: MintAndVerifyToCollection, reqs: Seq<MintRequest>) -> nat
    decreases reqs.len(),
{
    if reqs.len() == 0 {
        0
    } else {
        let prev = after_mints(ctx, reqs.drop_last());
        let req = reqs.last();
        successful_mints(ctx, reqs.drop_last())
            + if mint_and_verify_error(prev, req.name, req.symbol, req.uri, req.royalty_percent, req.now) is None { 1nat } else { 0nat }
    }
}

/// A collection's item count grows by exactly the number of mints into it
/// that succeed, whatever failed mints come between them. The record is
/// started at most once: it starts empty, or it already has an authority.
pub proof fn lemma_item_count_is_successful_mints(ctx: MintAndVerifyToCollection, reqs: Seq<MintRequest>)
    requires
        ctx.collection_authority@ != default_key(),
        ctx.user_collection.authority@ != default_key() || ctx.user_collection.total_items == 0,
    ensures
        after_mints(ctx, reqs).user_collection.total_items == ctx.user_collection.total_items + successful_mints(ctx, reqs),
        after_mints(ctx, reqs).collection_authority == ctx.collection_authority,
        after_mints(ctx, reqs).user_collection.authority@ != default_key() || after_mints(ctx, reqs).user_collection.total_items == 0,
    decreases reqs.len(),
{
    if reqs.len() > 0 {
        lemma_item_count_is_successful_mints(ctx, reqs.drop_last());
    }
}

/// A collection that was just created counts exactly the mints into it
/// that succeed.
pub proof fn lemma_new_collection_counts_its_mints(
    created: CreateCollection,
    name: String,
    symbol: String,
    uri: String,
    now: i64,
    ctx: MintAndVerifyToCollection,
    reqs: Seq<MintRequest>,
)
    requires
        ctx.user_collection == new_collection_record(created, name, symbol, uri, now),
        ctx.collection_authority == created.authority,
        created.authority@ != default_key(),
    ensures
        after_mints(ctx, reqs).user_collection.total_items == successful_mints(ctx, reqs),
{
    lemma_item_count_is_successful_mints(ctx, reqs);
}

/// The minting fee of a mint is the minting price last set, paid into the
/// admin's account where the fee account passes its check; the same holds
/// after the settings are created.
pub proof fn lemma_minting_fee_is_last_price(
    settings: ProgramState,
    new_price: u64,
    mint: MintToCollection,
    verified_mint: MintAndVerifyToCollection,
)
    requires
        mint.program_state == (ProgramState { minting_price: new_price, ..settings }),
        verified_mint.program_state == (ProgramState { minting_price: new_price, ..settings }),
    ensures
        planned_fee_payment(mint.program_state, mint.payer, mint.mint_fee_account).amount == new_price,
        planned_fee_payment(verified_mint.program_state, verified_mint.payer, verified_mint.mint_fee_account).amount == new_price,
        fee_account_error(mint.program_state, mint.mint_fee_account) is None
            ==> planned_fee_payment(mint.program_state, mint.payer, mint.mint_fee_account).to@ == settings.admin@,
        fee_account_error(verified_mint.program_state, verified_mint.mint_fee_account) is None
            ==> planned_fee_payment(verified_mint.program_state, verified_mint.payer, verified_mint.mint_fee_account).to@ == settings.admin@,
{
}

/// A collection record that passes its address check is at the address
/// that `get_collection_by_authority` gives for its authority and mint,
/// whether `create_collection` or a verified mint writes it.
pub proof fn lemma_record_is_where_it_is_found(created: CreateCollection, verified_mint: MintAndVerifyToCollection)
    ensures
        record_seeds_error(created.program_id, created.authority, created.mint, created.user_collection_key, created.user_collection_bump) is None
            ==> (collection_record_address(created.program_id@, created.authority@, created.mint@) matches Some(found)
                && found.0 == created.user_collection_key@),
        mint_and_verify_accounts_error(verified_mint) is None
            ==> (collection_record_address(verified_mint.program_id@, verified_mint.collection_authority@, verified_mint.collection_mint@) matches Some(found)
                && found.0 == verified_mint.user_collection_key@),
{
}

/// A verified mint succeeds exactly when the royalty is at most 50% and
/// the record can count one more item: it is new (and starts from no items)
/// or its count is below the largest `u64`. It then counts one item more
/// than the record had; a new record is started for the collection
/// authority with the item's name, symbol and uri, and an existing record
/// keeps everything but its count.
pub proof fn lemma_verified_mint_outcome(ctx: MintAndVerifyToCollection, name: String, symbol: String, uri: String, royalty_percent: u16, now: i64)
    ensures
        mint_and_verify_error(ctx, name, symbol, uri, royalty_percent, now) is None
            <==> (royalty_percent <= 50 && (ctx.user_collection.authority@ == default_key() || ctx.user_collection.total_items < u64::MAX)),
        royalty_percent > 50 ==> mint_and_verify_error(ctx, name, symbol, uri, royalty_percent, now) == fail(ErrorCode::RoyaltyTooHigh),
        royalty_percent <= 50 && ctx.user_collection.authority@ != default_key() && ctx.user_collection.total_items == u64::MAX
            ==> mint_and_verify_error(ctx, name, symbol, uri, royalty_percent, now) == fail(ErrorCode::ArithmeticOverflow),
        ctx.user_collection.authority@ == default_key() ==> ({
            let r = record_after_mint(ctx, name, symbol, uri, now);
            &&& r.authority == ctx.collection_authority
            &&& r.collection_mint == ctx.collection_mint
            &&& r.name == name
            &&& r.symbol == symbol
            &&& r.uri == uri
            &&& r.created_at == now
            &&& r.total_items == 1
            &&& r.verified
            &&& r.bump == ctx.user_collection_bump
        }),
        ctx.user_collection.authority@ != default_key() && ctx.user_collection.total_items < u64::MAX
            ==> record_after_mint(ctx, name, symbol, uri, now)
                == (UserCollection { total_items: (ctx.user_collection.total_items + 1) as u64, ..ctx.user_collection }),
{
}

/// A purchase succeeds exactly when the listing is active, the buyer is not
/// its seller and the fee rate is at most 100%, whatever the price; each
/// refusal names the first of these that fails. The bought listing keeps
/// all it held and is no longer active.
pub proof fn lemma_purchase_outcome(ctx: BuyNFT, fee_bps: u16)
    ensures
        buy_nft_error(ctx, fee_bps) is None
            <==> (ctx.listing.is_active && ctx.listing.seller@ != ctx.buyer@ && fee_bps <= 10000),
        !ctx.listing.is_active ==> buy_nft_error(ctx, fee_bps) == fail(ErrorCode::ListingNotActive),
        ctx.listing.is_active && ctx.listing.seller@ == ctx.buyer@ ==> buy_nft_error(ctx, fee_bps) == fail(ErrorCode::SellerCannotBuy),
        ctx.listing.is_active && ctx.listing.seller@ != ctx.buyer@ && fee_bps > 10000
            ==> buy_nft_error(ctx, fee_bps) == fail(ErrorCode::InvalidFeeBasisPoints),
        !closed_listing(ctx.listing).is_active,
        closed_listing(ctx.listing).seller == ctx.listing.seller,
        closed_listing(ctx.listing).mint == ctx.listing.mint,
        closed_listing(ctx.listing).collection_mint == ctx.listing.collection_mint,
        closed_listing(ctx.listing).price == ctx.listing.price,
        closed_listing(ctx.listing).listed_at == ctx.listing.listed_at,
        closed_listing(ctx.listing).bump == ctx.listing.bump,
{
}

/// The marketplace fee is the price times the rate in basis points divided
/// by 10 000, rounded down.
pub proof fn lemma_fee_rounds_down(total_price: u64, fee_bps: u16)
    ensures
        marketplace_fee(total_price, fee_bps) * 10000 <= total_price * fee_bps,
        total_price * fee_bps < (marketplace_fee(total_price, fee_bps) + 1) * 10000,
{
    let p = total_price as int * fee_bps as int;
    assert(p >= 0) by (nonlinear_arith) requires p == total_price as int * fee_bps as int, total_price >= 0, fee_bps >= 0;
    assert((p / 10000) * 10000 <= p < (p / 10000 + 1) * 10000) by (nonlinear_arith) requires p >= 0;
}

/// Whether an NFT's metadata fits the collection it is listed under: a
/// named collection must be that one and verified; with no collection the
/// listing must name the unset key.
pub open spec fn fits_collection(metadata: MetadataFields, collection_mint: Pubkey) -> bool {
    ||| (metadata.collection matches Some(c) && c.key@ == collection_mint@ && c.verified)
    ||| (metadata.collection is None && collection_mint@ == default_key())
}

/// Listing succeeds exactly when the seller's token account holds one token
/// of the mint and is the seller's, the metadata decodes and fits the
/// collection; the metadata's update authority plays no part. The listing
/// written is active, at the price, under the collection, for the seller and
/// mint, from `now`.
pub proof fn lemma_listing_outcome(ctx: ListNFT, collection_mint: Pubkey, price: u64, now: i64, other_authority: Pubkey, metadata: MetadataFields)
    ensures
        list_nft_error(ctx, collection_mint) is None <==> ({
            &&& ctx.seller_token_account.amount == 1
            &&& ctx.seller_token_account.mint@ == ctx.mint.key@
            &&& ctx.seller_token_account.owner@ == ctx.seller@
            &&& decoded_metadata(ctx.nft_metadata@) matches Some(m)
            &&& fits_collection(m, collection_mint)
        }),
        listed_collection_error(metadata, collection_mint@)
            == listed_collection_error(MetadataFields { update_authority: other_authority, ..metadata }, collection_mint@),
        listed_collection_error(metadata, collection_mint@) is None <==> fits_collection(metadata, collection_mint),
        new_listing(ctx, price, collection_mint, now) == (Listing {
            seller: ctx.seller,
            mint: ctx.mint.key,
            collection_mint,
            price,
            is_active: true,
            listed_at: now,
            bump: ctx.listing_bump,
        }),
{
}

/// Minting into a collection is refused exactly when the royalty exceeds
/// 50%, the bound that `validate_royalty_percent` accepts, and then with
/// `RoyaltyTooHigh`.
pub proof fn lemma_royalty_bound(royalty_percent: u16)
    ensures
        mint_to_collection_error(royalty_percent) is Some <==> royalty_percent > 50,
        royalty_percent > 50 ==> mint_to_collection_error(royalty_percent) == fail(ErrorCode::RoyaltyTooHigh),
{
}

/// A planned collection item is one token of the given name, symbol and
/// uri, with the given royalty, the payer as sole signed creator of the
/// whole share, the collection named but not yet verified, and at most one
/// print.
pub proof fn lemma_collection_item_fields(token: TokenCreation, name: String, symbol: String, uri: String, royalty_bps: u16, payer: Pubkey, collection: Pubkey)
    requires
        is_collection_item(token, name, symbol, uri, royalty_bps, payer, collection),
    ensures
        token.amount == 1,
        token.max_supply == Some(1u64),
        token.metadata.name == name,
        token.metadata.symbol == symbol,
        token.metadata.uri == uri,
        token.metadata.seller_fee_basis_points == royalty_bps,
        token.metadata.collection == Some(CollectionRef { key: collection, verified: false }),
        token.metadata.creators matches Some(v) && v@.len() == 1 && v@[0] == (MetadataCreator { address: payer, verified: true, share: 100 }),
{
}

/// Whether a creator list names exactly one signed creator with the whole
/// share.
pub proof fn lemma_sole_creator_fields(creators: Option<Vec<MetadataCreator>>, address: Pubkey)
    requires
        has_sole_creator(creators, address),
    ensures
        creators matches Some(v) && v@.len() == 1 && v@[0].address == address && v@[0].verified && v@[0].share == 100,
{
}

/// The record that `create_collection` writes holds the authority, the
/// collection mint, and exactly the name, symbol and uri it was given, from
/// `now`, verified, with no items.
pub proof fn lemma_created_record_fields(ctx: CreateCollection, name: String, symbol: String, uri: String, now: i64)
    ensures
        new_collection_record(ctx, name, symbol, uri, now).authority == ctx.authority,
        new_collection_record(ctx, name, symbol, uri, now).collection_mint == ctx.mint,
        new_collection_record(ctx, name, symbol, uri, now).name == name,
        new_collection_record(ctx, name, symbol, uri, now).symbol == symbol,
        new_collection_record(ctx, name, symbol, uri, now).uri == uri,
        new_collection_record(ctx, name, symbol, uri, now).created_at == now,
        new_collection_record(ctx, name, symbol, uri, now).total_items == 0,
        new_collection_record(ctx, name, symbol, uri, now).verified,
        new_collection_record(ctx, name, symbol, uri, now).bump == ctx.user_collection_bump,
{
}

/// An offer is made exactly when it expires after `now`, within a year of
/// `now`, and the buyer holds the price; the offer written is active, for the
/// buyer and mint, at the price, until the expiry, from `now`.
pub proof fn lemma_offer_outcome(ctx: MakeOffer, offer_price: u64, expiry_time: i64, now: i64)
    ensures
        make_offer_error(ctx, offer_price, expiry_time, now) is None
            <==> (now < expiry_time && expiry_time <= now + MAX_OFFER_DURATION && offer_price <= ctx.buyer_lamports),
        new_offer(ctx, offer_price, expiry_time, now) == (Offer {
            buyer: ctx.buyer,
            mint: ctx.mint,
            price: offer_price,
            expiry_time,
            is_active: true,
            created_at: now,
            bump: ctx.offer_bump,
        }),
{
}

/// Withdrawing a listing, changing its price and withdrawing an offer each
/// succeed exactly when the listing or offer is active and the signer's.
pub proof fn lemma_owner_actions_outcome(cancel: CancelListingAccounts, update: UpdateListing, withdraw: CancelOffer)
    ensures
        cancel_listing_error(cancel) is None <==> (cancel.listing.is_active && cancel.listing.seller@ == cancel.seller@),
        update_listing_price_error(update) is None <==> (update.listing.is_active && update.listing.seller@ == update.seller@),
        cancel_offer_error(withdraw) is None <==> (withdraw.offer.is_active && withdraw.offer.buyer@ == withdraw.buyer@),
        closed_offer(withdraw.offer) == (Offer { is_active: false, ..withdraw.offer }),
{
}

/// The settings are created exactly when the signer is the program's
/// upgrade authority; a collection authority passes its check exactly when
/// it is the owner of the collection's metadata account; a collection
/// authority may verify exactly when the collection's metadata decodes and
/// names it as update authority.
pub proof fn lemma_authority_checks(init: InitializeProgramState, check: VerifyCollectionAuthority, collection_metadata: Seq<u8>, authority: Seq<u8>)
    ensures
        initialize_program_state_error(init) is None <==> (init.upgrade_authority matches Some(u) && u@ == init.admin@),
        verify_collection_authority_error(check) is None <==> check.collection_authority@ == check.collection_metadata_owner@,
        collection_authority_error(collection_metadata, authority) is None
            <==> (decoded_metadata(collection_metadata) matches Some(m) && m.update_authority@ == authority),
{
}

/// The minting fee is paid by the payer, into the fee account, at the
/// current minting price; and the event reports the payer as sole creator
/// of the whole share.
pub proof fn lemma_fee_payment_and_event_creators(program_state: ProgramState, payer: Pubkey, mint_fee_account: Pubkey, creators: Vec<CreatorEventData>)
    ensures
        planned_fee_payment(program_state, payer, mint_fee_account).from == payer,
        planned_fee_payment(program_state, payer, mint_fee_account).to == mint_fee_account,
        planned_fee_payment(program_state, payer, mint_fee_account).amount == program_state.minting_price,
        payer_event_creators(creators, payer)
            <==> (creators@.len() == 1 && creators@[0] == (CreatorEventData { address: payer, verified: true, share: 100 })),
{
    let one = seq![CreatorEventData { address: payer, verified: true, share: 100 }];
    if creators@.len() == 1 && creators@[0] == one[0] {
        assert(creators@ =~= one);
    }
}

/// The account checks: the fee account must be the admin's; a listed
/// NFT's mint must be indivisible with one token that the seller's token
/// account holds; a purchase's token account and listing must match the
/// mint and seller; an acceptance's token account and offer must match the
/// mint, seller and buyer; listings, offers and settings may be changed
/// only by their seller, buyer and admin.
pub proof fn lemma_account_checks(
    program_state: ProgramState,
    mint_fee_account: Pubkey,
    list: ListNFT,
    buy: BuyNFT,
    accept: AcceptOffer,
    seller: Pubkey,
    listing: Listing,
    buyer: Pubkey,
    offer: Offer,
    admin: Pubkey,
)
    ensures
        fee_account_error(program_state, mint_fee_account) is None <==> mint_fee_account@ == program_state.admin@,
        list_nft_accounts_error(list) is None <==> ({
            &&& list.mint.decimals == 0
            &&& list.mint.supply == 1
            &&& list.seller_token_account.mint@ == list.mint.key@
            &&& list.seller_token_account.owner@ == list.seller@
            &&& list.seller_token_account.amount == 1
        }),
        buy_nft_accounts_error(buy) is None <==> ({
            &&& buy.seller_token_account.mint@ == buy.mint@
            &&& buy.seller_token_account.amount == 1
            &&& buy.listing.mint@ == buy.mint@
            &&& buy.listing.seller@ == buy.seller@
        }),
        accept_offer_accounts_error(accept) is None <==> ({
            &&& accept.seller_token_account.mint@ == accept.mint@
            &&& accept.seller_token_account.owner@ == accept.seller@
            &&& accept.seller_token_account.amount == 1
            &&& accept.offer.mint@ == accept.mint@
            &&& accept.offer.buyer@ == accept.buyer@
        }),
        seller_accounts_error(seller, listing) is None <==> listing.seller@ == seller@,
        buyer_accounts_error(buyer, offer) is None <==> offer.buyer@ == buyer@,
        admin_accounts_error(program_state, admin) is None <==> program_state.admin@ == admin@,
        admin_accounts_error(program_state, admin) is Some ==> admin_accounts_error(program_state, admin) == fail(ErrorCode::Unauthorized),
{
}

} // verus!
